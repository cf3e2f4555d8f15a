//! Platform-level laws: what the force model guarantees over all states.

use vstd::prelude::*;

use crate::qstate::cant_sign;
use crate::qstate::thrust_force;
use crate::qstate::QstateV;
use crate::qstate::WrenchV;
use crate::qstate::BM;
use crate::vecmath::V3;

verus! {

/// Law: the four attachments of a well-formed state are pairwise a quarter
/// turn apart about Z — neighbours are orthogonal, opposite ones are
/// antipodal — and all four have the same squared length.
pub proof fn lemma_layout_symmetry(v: QstateV)
    requires
        v.wf(),
    ensures
        v.m1p.dot(v.m2p) == 0,
        v.m2p.dot(v.m3p) == 0,
        v.m3p.dot(v.m4p) == 0,
        v.m4p.dot(v.m1p) == 0,
        v.m3p == v.m1p.neg(),
        v.m4p == v.m2p.neg(),
        v.m2p.norm2() == v.m1p.norm2(),
        v.m3p.norm2() == v.m1p.norm2(),
        v.m4p.norm2() == v.m1p.norm2(),
{
    let x: int = v.m1p.x;
    let y: int = v.m1p.y;
    assert(x * (-y) + y * x == 0) by (nonlinear_arith);
    assert((-y) * (-x) + x * (-y) == 0) by (nonlinear_arith);
    assert((-x) * y + (-y) * (-x) == 0) by (nonlinear_arith);
    assert(y * x + (-x) * y == 0) by (nonlinear_arith);
    assert((-y) * (-y) + x * x == x * x + y * y) by (nonlinear_arith);
    assert((-x) * (-x) + (-y) * (-y) == x * x + y * y) by (nonlinear_arith);
    assert(y * y + (-x) * (-x) == x * x + y * y) by (nonlinear_arith);
}

/// Law: when the offset angle's cosine/sine pair lies exactly on the
/// circle of scale `u`, an attachment built from radius `r` has squared
/// length `(r * u) * (r * u)` — its magnitude is `|r|` at that scale.
pub proof fn lemma_attachment_magnitude(r: int, c: int, s: int, u: int)
    requires
        c * c + s * s == u * u,
    ensures
        (V3 { x: r * c, y: r * s, z: 0 }).norm2() == (r * u) * (r * u),
{
    assert((r * c) * (r * c) == (r * r) * (c * c)) by (nonlinear_arith);
    assert((r * s) * (r * s) == (r * r) * (s * s)) by (nonlinear_arith);
    assert((r * r) * (c * c) + (r * r) * (s * s) == (r * r) * (c * c + s * s))
        by (nonlinear_arith);
    assert((r * r) * (u * u) == (r * u) * (r * u)) by (nonlinear_arith);
}

/// An actuator whose command is zero produces no thrust.
proof fn lemma_thrust_of_zero_command(p: V3, ca: int, sa: int)
    ensures
        thrust_force(p, 0, ca, sa) == V3::zero(),
{
    assert((0 * sa) * p.y == 0) by (nonlinear_arith);
    assert((0 * sa) * p.x == 0) by (nonlinear_arith);
    assert(0 * ca == 0) by (nonlinear_arith);
}

/// A zero force applied anywhere produces no torque.
proof fn lemma_cross_of_zero(p: V3)
    ensures
        p.cross(V3::zero()) == V3::zero(),
{
    assert(p.y * 0 - p.z * 0 == 0) by (nonlinear_arith);
    assert(p.z * 0 - p.x * 0 == 0) by (nonlinear_arith);
    assert(p.x * 0 - p.y * 0 == 0) by (nonlinear_arith);
}

/// Law: with all four commands at zero the resultant wrench is exactly
/// zero, whatever the layout and cant — and so, commands being the only
/// mutable state, a wrench query after every command is reset to zero
/// returns the zero wrench with nothing left over.
pub proof fn lemma_zero_commands(v: QstateV)
    requires
        v.m1 == 0,
        v.m2 == 0,
        v.m3 == 0,
        v.m4 == 0,
    ensures
        v.total_wrench() == WrenchV::zero(),
{
    lemma_thrust_of_zero_command(v.attach(BM::M1), v.cant_cos, cant_sign(BM::M1) * v.cant_sin);
    lemma_thrust_of_zero_command(v.attach(BM::M2), v.cant_cos, cant_sign(BM::M2) * v.cant_sin);
    lemma_thrust_of_zero_command(v.attach(BM::M3), v.cant_cos, cant_sign(BM::M3) * v.cant_sin);
    lemma_thrust_of_zero_command(v.attach(BM::M4), v.cant_cos, cant_sign(BM::M4) * v.cant_sin);
    lemma_cross_of_zero(v.attach(BM::M1));
    lemma_cross_of_zero(v.attach(BM::M2));
    lemma_cross_of_zero(v.attach(BM::M3));
    lemma_cross_of_zero(v.attach(BM::M4));
}

/// Scaling the command scales the thrust.
proof fn lemma_thrust_scaled(p: V3, c: int, ca: int, sa: int, k: int)
    ensures
        thrust_force(p, k * c, ca, sa) == thrust_force(p, c, ca, sa).scaled(k),
{
    assert(((k * c) * sa) * p.y == k * ((c * sa) * p.y)) by (nonlinear_arith);
    assert(-(((k * c) * sa) * p.x) == k * (-((c * sa) * p.x))) by (nonlinear_arith);
    assert((k * c) * ca == k * (c * ca)) by (nonlinear_arith);
}

/// Splitting the command splits the thrust.
proof fn lemma_thrust_added(p: V3, a: int, b: int, ca: int, sa: int)
    ensures
        thrust_force(p, a + b, ca, sa) == thrust_force(p, a, ca, sa).plus(
            thrust_force(p, b, ca, sa),
        ),
{
    assert(((a + b) * sa) * p.y == (a * sa) * p.y + (b * sa) * p.y) by (nonlinear_arith);
    assert(-(((a + b) * sa) * p.x) == -((a * sa) * p.x) + -((b * sa) * p.x))
        by (nonlinear_arith);
    assert((a + b) * ca == a * ca + b * ca) by (nonlinear_arith);
}

/// The cross product is linear in its second argument: scaling.
proof fn lemma_cross_scaled(p: V3, f: V3, k: int)
    ensures
        p.cross(f.scaled(k)) == p.cross(f).scaled(k),
{
    assert(p.y * (k * f.z) - p.z * (k * f.y) == k * (p.y * f.z - p.z * f.y))
        by (nonlinear_arith);
    assert(p.z * (k * f.x) - p.x * (k * f.z) == k * (p.z * f.x - p.x * f.z))
        by (nonlinear_arith);
    assert(p.x * (k * f.y) - p.y * (k * f.x) == k * (p.x * f.y - p.y * f.x))
        by (nonlinear_arith);
}

/// The cross product is linear in its second argument: addition.
proof fn lemma_cross_added(p: V3, f: V3, g: V3)
    ensures
        p.cross(f.plus(g)) == p.cross(f).plus(p.cross(g)),
{
    assert(p.y * (f.z + g.z) - p.z * (f.y + g.y) == (p.y * f.z - p.z * f.y) + (p.y * g.z
        - p.z * g.y)) by (nonlinear_arith);
    assert(p.z * (f.x + g.x) - p.x * (f.z + g.z) == (p.z * f.x - p.x * f.z) + (p.z * g.x
        - p.x * g.z)) by (nonlinear_arith);
    assert(p.x * (f.y + g.y) - p.y * (f.x + g.x) == (p.x * f.y - p.y * f.x) + (p.x * g.y
        - p.y * g.x)) by (nonlinear_arith);
}

/// Scaling distributes over a vector sum.
proof fn lemma_v3_plus_scaled(a: V3, b: V3, k: int)
    ensures
        a.scaled(k).plus(b.scaled(k)) == a.plus(b).scaled(k),
{
    assert(k * a.x + k * b.x == k * (a.x + b.x)) by (nonlinear_arith);
    assert(k * a.y + k * b.y == k * (a.y + b.y)) by (nonlinear_arith);
    assert(k * a.z + k * b.z == k * (a.z + b.z)) by (nonlinear_arith);
}

/// Scaling distributes over a wrench sum.
proof fn lemma_wrench_plus_scaled(a: WrenchV, b: WrenchV, k: int)
    ensures
        a.scaled(k).plus(b.scaled(k)) == a.plus(b).scaled(k),
{
    lemma_v3_plus_scaled(a.force, b.force, k);
    lemma_v3_plus_scaled(a.torque, b.torque, k);
}

/// Law: for fixed attachments the resultant wrench is homogeneous in the
/// command vector — scaling all four commands by `k` scales both the net
/// force and the net torque by `k`.
pub proof fn lemma_commands_scaled(v: QstateV, k: int)
    ensures
        v.with_commands(k * v.m1, k * v.m2, k * v.m3, k * v.m4).total_wrench()
            == v.total_wrench().scaled(k),
{
    let vs = v.with_commands(k * v.m1, k * v.m2, k * v.m3, k * v.m4);
    lemma_thrust_scaled(v.attach(BM::M1), v.m1, v.cant_cos, cant_sign(BM::M1) * v.cant_sin, k);
    lemma_thrust_scaled(v.attach(BM::M2), v.m2, v.cant_cos, cant_sign(BM::M2) * v.cant_sin, k);
    lemma_thrust_scaled(v.attach(BM::M3), v.m3, v.cant_cos, cant_sign(BM::M3) * v.cant_sin, k);
    lemma_thrust_scaled(v.attach(BM::M4), v.m4, v.cant_cos, cant_sign(BM::M4) * v.cant_sin, k);
    lemma_cross_scaled(v.attach(BM::M1), v.force_of(BM::M1), k);
    lemma_cross_scaled(v.attach(BM::M2), v.force_of(BM::M2), k);
    lemma_cross_scaled(v.attach(BM::M3), v.force_of(BM::M3), k);
    lemma_cross_scaled(v.attach(BM::M4), v.force_of(BM::M4), k);
    assert(vs.wrench_of(BM::M1) == v.wrench_of(BM::M1).scaled(k));
    assert(vs.wrench_of(BM::M2) == v.wrench_of(BM::M2).scaled(k));
    assert(vs.wrench_of(BM::M3) == v.wrench_of(BM::M3).scaled(k));
    assert(vs.wrench_of(BM::M4) == v.wrench_of(BM::M4).scaled(k));
    lemma_wrench_plus_scaled(v.wrench_of(BM::M1), v.wrench_of(BM::M2), k);
    lemma_wrench_plus_scaled(
        v.wrench_of(BM::M1).plus(v.wrench_of(BM::M2)),
        v.wrench_of(BM::M3),
        k,
    );
    lemma_wrench_plus_scaled(
        v.wrench_of(BM::M1).plus(v.wrench_of(BM::M2)).plus(v.wrench_of(BM::M3)),
        v.wrench_of(BM::M4),
        k,
    );
}

/// Law: for fixed attachments the resultant wrench is additive in the
/// command vector — the wrench of the summed commands is the sum of the
/// two wrenches. Together with [`lemma_commands_scaled`] this is linearity.
pub proof fn lemma_commands_added(
    v: QstateV,
    a1: int,
    a2: int,
    a3: int,
    a4: int,
    b1: int,
    b2: int,
    b3: int,
    b4: int,
)
    ensures
        v.with_commands(a1 + b1, a2 + b2, a3 + b3, a4 + b4).total_wrench()
            == v.with_commands(a1, a2, a3, a4).total_wrench().plus(
            v.with_commands(b1, b2, b3, b4).total_wrench(),
        ),
{
    let va = v.with_commands(a1, a2, a3, a4);
    let vb = v.with_commands(b1, b2, b3, b4);
    let vab = v.with_commands(a1 + b1, a2 + b2, a3 + b3, a4 + b4);
    lemma_thrust_added(v.attach(BM::M1), a1, b1, v.cant_cos, cant_sign(BM::M1) * v.cant_sin);
    lemma_thrust_added(v.attach(BM::M2), a2, b2, v.cant_cos, cant_sign(BM::M2) * v.cant_sin);
    lemma_thrust_added(v.attach(BM::M3), a3, b3, v.cant_cos, cant_sign(BM::M3) * v.cant_sin);
    lemma_thrust_added(v.attach(BM::M4), a4, b4, v.cant_cos, cant_sign(BM::M4) * v.cant_sin);
    lemma_cross_added(v.attach(BM::M1), va.force_of(BM::M1), vb.force_of(BM::M1));
    lemma_cross_added(v.attach(BM::M2), va.force_of(BM::M2), vb.force_of(BM::M2));
    lemma_cross_added(v.attach(BM::M3), va.force_of(BM::M3), vb.force_of(BM::M3));
    lemma_cross_added(v.attach(BM::M4), va.force_of(BM::M4), vb.force_of(BM::M4));
    assert(vab.wrench_of(BM::M1) == va.wrench_of(BM::M1).plus(vb.wrench_of(BM::M1)));
    assert(vab.wrench_of(BM::M2) == va.wrench_of(BM::M2).plus(vb.wrench_of(BM::M2)));
    assert(vab.wrench_of(BM::M3) == va.wrench_of(BM::M3).plus(vb.wrench_of(BM::M3)));
    assert(vab.wrench_of(BM::M4) == va.wrench_of(BM::M4).plus(vb.wrench_of(BM::M4)));
}

/// Law: with the four commands equal, the symmetric layout cancels every
/// lateral and rotational effect exactly: the resultant wrench is a purely
/// vertical force, four times one actuator's vertical thrust component,
/// and no torque at all.
pub proof fn lemma_equal_commands(v: QstateV, c: int)
    requires
        v.wf(),
        v.m1 == c,
        v.m2 == c,
        v.m3 == c,
        v.m4 == c,
    ensures
        v.total_wrench() == (WrenchV {
            force: V3 { x: 0, y: 0, z: 4 * (c * v.cant_cos) },
            torque: V3::zero(),
        }),
{
    let x: int = v.m1p.x;
    let y: int = v.m1p.y;
    let sp: int = v.cant_sin;
    let cc: int = v.cant_cos;
    let f1 = v.force_of(BM::M1);
    let f2 = v.force_of(BM::M2);
    let f3 = v.force_of(BM::M3);
    let f4 = v.force_of(BM::M4);
    let t1 = v.attach(BM::M1).cross(f1);
    let t2 = v.attach(BM::M2).cross(f2);
    let t3 = v.attach(BM::M3).cross(f3);
    let t4 = v.attach(BM::M4).cross(f4);
    assert(f1.x + f2.x + f3.x + f4.x == 0) by (nonlinear_arith)
        requires
            f1.x == (c * (1 * sp)) * y,
            f2.x == (c * ((-1) * sp)) * x,
            f3.x == (c * (1 * sp)) * (-y),
            f4.x == (c * ((-1) * sp)) * (-x),
    ;
    assert(f1.y + f2.y + f3.y + f4.y == 0) by (nonlinear_arith)
        requires
            f1.y == -((c * (1 * sp)) * x),
            f2.y == -((c * ((-1) * sp)) * (-y)),
            f3.y == -((c * (1 * sp)) * (-x)),
            f4.y == -((c * ((-1) * sp)) * y),
    ;
    assert(t1.x + t2.x + t3.x + t4.x == 0) by (nonlinear_arith)
        requires
            t1.x == y * (c * cc) - 0 * f1.y,
            t2.x == x * (c * cc) - 0 * f2.y,
            t3.x == (-y) * (c * cc) - 0 * f3.y,
            t4.x == (-x) * (c * cc) - 0 * f4.y,
    ;
    assert(t1.y + t2.y + t3.y + t4.y == 0) by (nonlinear_arith)
        requires
            t1.y == 0 * f1.x - x * (c * cc),
            t2.y == 0 * f2.x - (-y) * (c * cc),
            t3.y == 0 * f3.x - (-x) * (c * cc),
            t4.y == 0 * f4.x - y * (c * cc),
    ;
    assert(t1.z + t2.z == 0) by (nonlinear_arith)
        requires
            t1.z == x * f1.y - y * f1.x,
            t2.z == (-y) * f2.y - x * f2.x,
            f1.x == (c * (1 * sp)) * y,
            f1.y == -((c * (1 * sp)) * x),
            f2.x == (c * ((-1) * sp)) * x,
            f2.y == -((c * ((-1) * sp)) * (-y)),
    ;
    assert(t3.z + t4.z == 0) by (nonlinear_arith)
        requires
            t3.z == (-x) * f3.y - (-y) * f3.x,
            t4.z == y * f4.y - (-x) * f4.x,
            f3.x == (c * (1 * sp)) * (-y),
            f3.y == -((c * (1 * sp)) * (-x)),
            f4.x == (c * ((-1) * sp)) * (-x),
            f4.y == -((c * ((-1) * sp)) * y),
    ;
}

/// The resultant wrench of a design variant in which all four actuators
/// tilt with the same cant sign, instead of alternating between
/// neighbours. Stated only to be compared against; nothing computes it.
pub open spec fn total_wrench_uniform_cant(v: QstateV) -> WrenchV {
    v.wrench_with_sign(BM::M1, 1).plus(v.wrench_with_sign(BM::M2, 1)).plus(
        v.wrench_with_sign(BM::M3, 1),
    ).plus(v.wrench_with_sign(BM::M4, 1))
}

/// Law: with the four commands equal, the alternating-cant design and the
/// uniform-cant variant both cancel the lateral force exactly — the
/// horizontal components vanish in either case, so the alternating
/// design's lateral magnitude never exceeds the variant's. What the
/// alternation actually buys is the yaw: the variant leaves a net Z torque
/// proportional to command, cant sine and squared radius — nonzero
/// whenever all three are — while the alternating design leaves none.
pub proof fn lemma_cant_alternation(v: QstateV, c: int)
    requires
        v.wf(),
        v.m1 == c,
        v.m2 == c,
        v.m3 == c,
        v.m4 == c,
    ensures
        v.total_wrench().force.x == 0,
        v.total_wrench().force.y == 0,
        total_wrench_uniform_cant(v).force.x == 0,
        total_wrench_uniform_cant(v).force.y == 0,
        v.total_wrench().force.x * v.total_wrench().force.x + v.total_wrench().force.y
            * v.total_wrench().force.y <= total_wrench_uniform_cant(v).force.x
            * total_wrench_uniform_cant(v).force.x + total_wrench_uniform_cant(v).force.y
            * total_wrench_uniform_cant(v).force.y,
        v.total_wrench().torque.z == 0,
        total_wrench_uniform_cant(v).torque.z == -(4 * ((c * v.cant_sin) * v.m1p.norm2())),
        c != 0 && v.cant_sin != 0 && v.m1p.norm2() != 0 ==> total_wrench_uniform_cant(
            v,
        ).torque.z != 0,
{
    lemma_equal_commands(v, c);
    let x: int = v.m1p.x;
    let y: int = v.m1p.y;
    let sp: int = v.cant_sin;
    let u1 = v.force_with_sign(BM::M1, 1);
    let u2 = v.force_with_sign(BM::M2, 1);
    let u3 = v.force_with_sign(BM::M3, 1);
    let u4 = v.force_with_sign(BM::M4, 1);
    let s1 = v.attach(BM::M1).cross(u1);
    let s2 = v.attach(BM::M2).cross(u2);
    let s3 = v.attach(BM::M3).cross(u3);
    let s4 = v.attach(BM::M4).cross(u4);
    assert(u1.x + u2.x + u3.x + u4.x == 0) by (nonlinear_arith)
        requires
            u1.x == (c * (1 * sp)) * y,
            u2.x == (c * (1 * sp)) * x,
            u3.x == (c * (1 * sp)) * (-y),
            u4.x == (c * (1 * sp)) * (-x),
    ;
    assert(u1.y + u2.y + u3.y + u4.y == 0) by (nonlinear_arith)
        requires
            u1.y == -((c * (1 * sp)) * x),
            u2.y == -((c * (1 * sp)) * (-y)),
            u3.y == -((c * (1 * sp)) * (-x)),
            u4.y == -((c * (1 * sp)) * y),
    ;
    assert(s1.z + s2.z + s3.z + s4.z == -(4 * ((c * sp) * (x * x + y * y + 0 * 0))))
        by (nonlinear_arith)
        requires
            s1.z == x * u1.y - y * u1.x,
            s2.z == (-y) * u2.y - x * u2.x,
            s3.z == (-x) * u3.y - (-y) * u3.x,
            s4.z == y * u4.y - (-x) * u4.x,
            u1.x == (c * (1 * sp)) * y,
            u1.y == -((c * (1 * sp)) * x),
            u2.x == (c * (1 * sp)) * x,
            u2.y == -((c * (1 * sp)) * (-y)),
            u3.x == (c * (1 * sp)) * (-y),
            u3.y == -((c * (1 * sp)) * (-x)),
            u4.x == (c * (1 * sp)) * (-x),
            u4.y == -((c * (1 * sp)) * y),
    ;
    assert(c != 0 && sp != 0 && x * x + y * y + 0 * 0 != 0 ==> -(4 * ((c * sp) * (x * x + y
        * y + 0 * 0))) != 0) by (nonlinear_arith);
}

} // verus!
