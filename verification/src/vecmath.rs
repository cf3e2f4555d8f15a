//! Exact 3-vector algebra over fixed-point integer scalars.

use vstd::prelude::*;

verus! {

/// Mathematical model of a 3-vector: unbounded integer components.
pub ghost struct V3 {
    pub x: int,
    pub y: int,
    pub z: int,
}

impl V3 {
    pub open spec fn plus(self, o: V3) -> V3 {
        V3 { x: self.x + o.x, y: self.y + o.y, z: self.z + o.z }
    }

    pub open spec fn neg(self) -> V3 {
        V3 { x: -self.x, y: -self.y, z: -self.z }
    }

    pub open spec fn scaled(self, k: int) -> V3 {
        V3 { x: k * self.x, y: k * self.y, z: k * self.z }
    }

    pub open spec fn cross(self, o: V3) -> V3 {
        V3 {
            x: self.y * o.z - self.z * o.y,
            y: self.z * o.x - self.x * o.z,
            z: self.x * o.y - self.y * o.x,
        }
    }

    pub open spec fn dot(self, o: V3) -> int {
        self.x * o.x + self.y * o.y + self.z * o.z
    }

    /// Squared Euclidean length.
    pub open spec fn norm2(self) -> int {
        self.dot(self)
    }

    /// Rotation by a quarter turn about the Z axis (right-hand rule).
    pub open spec fn rot90(self) -> V3 {
        V3 { x: -self.y, y: self.x, z: self.z }
    }

    pub open spec fn bounded(self, m: int) -> bool {
        &&& -m <= self.x <= m
        &&& -m <= self.y <= m
        &&& -m <= self.z <= m
    }

    pub open spec fn zero() -> V3 {
        V3 { x: 0, y: 0, z: 0 }
    }
}

/// A 3-vector with fixed-point integer components.
#[derive(Clone, Copy, Debug, PartialEq, Eq, Structural)]
pub struct Vec3 {
    pub x: i128,
    pub y: i128,
    pub z: i128,
}

impl View for Vec3 {
    type V = V3;

    open spec fn view(&self) -> V3 {
        V3 { x: self.x as int, y: self.y as int, z: self.z as int }
    }
}

/// The componentwise sums of `a` and `b` stay representable.
pub open spec fn add_fits(a: V3, b: V3) -> bool {
    &&& i128::MIN <= a.x + b.x <= i128::MAX
    &&& i128::MIN <= a.y + b.y <= i128::MAX
    &&& i128::MIN <= a.z + b.z <= i128::MAX
}

/// Every product and difference of the cross product of `a` and `b` stays
/// representable.
pub open spec fn cross_fits(a: V3, b: V3) -> bool {
    &&& i128::MIN <= a.y * b.z <= i128::MAX
    &&& i128::MIN <= a.z * b.y <= i128::MAX
    &&& i128::MIN <= a.z * b.x <= i128::MAX
    &&& i128::MIN <= a.x * b.z <= i128::MAX
    &&& i128::MIN <= a.x * b.y <= i128::MAX
    &&& i128::MIN <= a.y * b.x <= i128::MAX
    &&& i128::MIN <= a.y * b.z - a.z * b.y <= i128::MAX
    &&& i128::MIN <= a.z * b.x - a.x * b.z <= i128::MAX
    &&& i128::MIN <= a.x * b.y - a.y * b.x <= i128::MAX
}

impl Vec3 {
    pub fn zero() -> (r: Vec3)
        ensures
            r@ == V3::zero(),
    {
        Vec3 { x: 0, y: 0, z: 0 }
    }

    pub fn add(self, o: Vec3) -> (r: Vec3)
        requires
            add_fits(self@, o@),
        ensures
            r@ == self@.plus(o@),
    {
        Vec3 { x: self.x + o.x, y: self.y + o.y, z: self.z + o.z }
    }

    pub fn cross(self, o: Vec3) -> (r: Vec3)
        requires
            cross_fits(self@, o@),
        ensures
            r@ == self@.cross(o@),
    {
        Vec3 {
            x: self.y * o.z - self.z * o.y,
            y: self.z * o.x - self.x * o.z,
            z: self.x * o.y - self.y * o.x,
        }
    }

    pub fn rot90(self) -> (r: Vec3)
        requires
            i128::MIN < self@.y,
        ensures
            r@ == self@.rot90(),
    {
        Vec3 { x: -self.y, y: self.x, z: self.z }
    }
}

/// Bound on a product from bounds on its factors.
pub proof fn lemma_mul_bound(a: int, b: int, am: int, bm: int)
    by (nonlinear_arith)
    requires
        -am <= a <= am,
        -bm <= b <= bm,
    ensures
        -(am * bm) <= a * b <= am * bm,
{
}

/// A cross product of componentwise-bounded vectors fits whenever twice the
/// product of the bounds does.
pub proof fn lemma_cross_fits(a: V3, b: V3, am: int, bm: int)
    requires
        a.bounded(am),
        b.bounded(bm),
        2 * (am * bm) <= i128::MAX,
    ensures
        cross_fits(a, b),
        a.cross(b).bounded(2 * (am * bm)),
{
    lemma_mul_bound(a.x, b.x, am, bm);
    lemma_mul_bound(a.x, b.y, am, bm);
    lemma_mul_bound(a.x, b.z, am, bm);
    lemma_mul_bound(a.y, b.x, am, bm);
    lemma_mul_bound(a.y, b.y, am, bm);
    lemma_mul_bound(a.y, b.z, am, bm);
    lemma_mul_bound(a.z, b.x, am, bm);
    lemma_mul_bound(a.z, b.y, am, bm);
    lemma_mul_bound(a.z, b.z, am, bm);
}

} // verus!
