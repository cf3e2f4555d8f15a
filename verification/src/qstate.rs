//! Actuator state and the force model.
//!
//! Four actuators sit at fixed attachment points around the body origin,
//! 90 degrees apart on a circle in the body's horizontal plane. Each holds a
//! scalar command; a query turns the commands into four canted thrust
//! vectors and reduces them to one wrench about the origin.
//!
//! Scalars are fixed-point integers at a caller-chosen scale, and angles
//! enter as cosine/sine pairs, so every computation here is exact and the
//! contracts pin each result down to the integer.

use vstd::prelude::*;

use crate::vecmath::add_fits;
use crate::vecmath::lemma_cross_fits;
use crate::vecmath::lemma_mul_bound;
use crate::vecmath::Vec3;
use crate::vecmath::V3;

verus! {

/// Largest magnitude a command may take.
pub const CMD_MAX: i128 = 0x8000_0000;

/// Largest magnitude the radius argument of the constructor may take.
pub const RADIUS_MAX: i128 = 0x10_0000;

/// Largest magnitude a cosine or sine argument may take (the fixed-point
/// scale of an angle must stay within it).
pub const TRIG_MAX: i128 = 0x1_0000;

/// Bound on every attachment coordinate: `RADIUS_MAX * TRIG_MAX`.
pub const ATT_BOUND: i128 = 0x10_0000_0000;

/// Bound on every force component: `CMD_MAX * TRIG_MAX * ATT_BOUND`.
pub const FORCE_BOUND: i128 = 0x8_0000_0000_0000_0000_0000;

/// Bound on every single-actuator torque component:
/// `2 * ATT_BOUND * FORCE_BOUND`.
pub const TORQUE_BOUND: i128 = 0x100_0000_0000_0000_0000_0000_0000_0000;

/// An angle, represented by its cosine and sine scaled to a fixed-point
/// unit of the caller's choice.
#[derive(Clone, Copy, Debug, PartialEq, Eq, Structural)]
pub struct Rot {
    pub cos: i128,
    pub sin: i128,
}

/// Names of the four actuators.
#[derive(Clone, Copy, Debug, PartialEq, Eq, Structural)]
pub enum BM {
    M1,
    M2,
    M3,
    M4,
}

/// Net effect of the actuators on the body: a force and a torque, both
/// resolved about the body origin.
#[derive(Clone, Copy, Debug, PartialEq, Eq, Structural)]
pub struct Wrench {
    pub force: Vec3,
    pub torque: Vec3,
}

/// Mathematical model of a wrench.
pub ghost struct WrenchV {
    pub force: V3,
    pub torque: V3,
}

impl View for Wrench {
    type V = WrenchV;

    open spec fn view(&self) -> WrenchV {
        WrenchV { force: self.force@, torque: self.torque@ }
    }
}

impl WrenchV {
    pub open spec fn plus(self, o: WrenchV) -> WrenchV {
        WrenchV { force: self.force.plus(o.force), torque: self.torque.plus(o.torque) }
    }

    pub open spec fn scaled(self, k: int) -> WrenchV {
        WrenchV { force: self.force.scaled(k), torque: self.torque.scaled(k) }
    }

    pub open spec fn zero() -> WrenchV {
        WrenchV { force: V3::zero(), torque: V3::zero() }
    }
}

impl Wrench {
    pub fn zero() -> (r: Wrench)
        ensures
            r@ == WrenchV::zero(),
    {
        Wrench { force: Vec3::zero(), torque: Vec3::zero() }
    }

    /// Componentwise sum of two wrenches.
    pub fn add(self, o: Wrench) -> (r: Wrench)
        requires
            add_fits(self@.force, o@.force),
            add_fits(self@.torque, o@.torque),
        ensures
            r@ == self@.plus(o@),
    {
        Wrench { force: self.force.add(o.force), torque: self.torque.add(o.torque) }
    }
}

/// Thrust of one actuator: the nominal vertical thrust `c * Z`, rotated by
/// the cant angle (cosine `ca`, sine `sa`) about the actuator's attachment
/// vector `p`, which lies in the horizontal plane. The axis is used exactly
/// as stored, without normalizing, so its length scales the lateral tilt;
/// that coupling of radius and tilt is part of the design and is kept.
pub open spec fn thrust_force(p: V3, c: int, ca: int, sa: int) -> V3 {
    let cs = c * sa;
    V3 { x: cs * p.y, y: -(cs * p.x), z: c * ca }
}

/// Direction of the cant tilt alternates between neighbouring actuators, so
/// that their lateral thrust components cancel instead of adding up.
pub open spec fn cant_sign(m: BM) -> int {
    match m {
        BM::M1 => 1,
        BM::M2 => -1,
        BM::M3 => 1,
        BM::M4 => -1,
    }
}

/// Mathematical model of the platform state: four commands, four
/// attachment points, and the cant angle.
pub ghost struct QstateV {
    pub m1: int,
    pub m2: int,
    pub m3: int,
    pub m4: int,
    pub m1p: V3,
    pub m2p: V3,
    pub m3p: V3,
    pub m4p: V3,
    pub cant_cos: int,
    pub cant_sin: int,
}

impl QstateV {
    pub open spec fn command(self, m: BM) -> int {
        match m {
            BM::M1 => self.m1,
            BM::M2 => self.m2,
            BM::M3 => self.m3,
            BM::M4 => self.m4,
        }
    }

    pub open spec fn attach(self, m: BM) -> V3 {
        match m {
            BM::M1 => self.m1p,
            BM::M2 => self.m2p,
            BM::M3 => self.m3p,
            BM::M4 => self.m4p,
        }
    }

    /// The state after one command is replaced.
    pub open spec fn with_command(self, m: BM, c: int) -> QstateV {
        match m {
            BM::M1 => QstateV { m1: c, ..self },
            BM::M2 => QstateV { m2: c, ..self },
            BM::M3 => QstateV { m3: c, ..self },
            BM::M4 => QstateV { m4: c, ..self },
        }
    }

    /// The state after all four commands are replaced.
    pub open spec fn with_commands(self, c1: int, c2: int, c3: int, c4: int) -> QstateV {
        QstateV { m1: c1, m2: c2, m3: c3, m4: c4, ..self }
    }

    /// Force of one actuator under an explicit cant-tilt sign.
    pub open spec fn force_with_sign(self, m: BM, sgn: int) -> V3 {
        thrust_force(self.attach(m), self.command(m), self.cant_cos, sgn * self.cant_sin)
    }

    /// Wrench contribution of one actuator under an explicit cant-tilt
    /// sign: its force, and the torque of that force about the origin.
    pub open spec fn wrench_with_sign(self, m: BM, sgn: int) -> WrenchV {
        let f = self.force_with_sign(m, sgn);
        WrenchV { force: f, torque: self.attach(m).cross(f) }
    }

    /// Force applied by one actuator.
    pub open spec fn force_of(self, m: BM) -> V3 {
        self.force_with_sign(m, cant_sign(m))
    }

    /// Wrench contribution of one actuator.
    pub open spec fn wrench_of(self, m: BM) -> WrenchV {
        self.wrench_with_sign(m, cant_sign(m))
    }

    /// The resultant wrench: the four contributions summed in the fixed
    /// order M1, M2, M3, M4.
    pub open spec fn total_wrench(self) -> WrenchV {
        self.wrench_of(BM::M1).plus(self.wrench_of(BM::M2)).plus(self.wrench_of(BM::M3)).plus(
            self.wrench_of(BM::M4),
        )
    }

    /// Well-formed platform state: the first attachment lies in the
    /// horizontal plane within bounds, the other three are its successive
    /// quarter turns about Z, and commands and cant stay within the
    /// fixed-point ranges.
    pub open spec fn wf(self) -> bool {
        &&& self.m1p.z == 0
        &&& self.m1p.bounded(ATT_BOUND as int)
        &&& self.m2p == self.m1p.rot90()
        &&& self.m3p == self.m2p.rot90()
        &&& self.m4p == self.m3p.rot90()
        &&& -(TRIG_MAX as int) <= self.cant_cos <= TRIG_MAX as int
        &&& -(TRIG_MAX as int) <= self.cant_sin <= TRIG_MAX as int
        &&& -(CMD_MAX as int) <= self.m1 <= CMD_MAX as int
        &&& -(CMD_MAX as int) <= self.m2 <= CMD_MAX as int
        &&& -(CMD_MAX as int) <= self.m3 <= CMD_MAX as int
        &&& -(CMD_MAX as int) <= self.m4 <= CMD_MAX as int
    }
}

/// Per-actuator state of the platform: a command and a fixed attachment
/// point for each of the four actuators, plus the cant angle shared by all
/// of them.
pub struct Qstate {
    m1: i128,
    m1p: Vec3,
    m2: i128,
    m2p: Vec3,
    m3: i128,
    m3p: Vec3,
    m4: i128,
    m4p: Vec3,
    cant: Rot,
}

impl View for Qstate {
    type V = QstateV;

    closed spec fn view(&self) -> QstateV {
        QstateV {
            m1: self.m1 as int,
            m2: self.m2 as int,
            m3: self.m3 as int,
            m4: self.m4 as int,
            m1p: self.m1p@,
            m2p: self.m2p@,
            m3p: self.m3p@,
            m4p: self.m4p@,
            cant_cos: self.cant.cos as int,
            cant_sin: self.cant.sin as int,
        }
    }
}

/// Thrust of one actuator, computed exactly; see [`thrust_force`].
fn canted_thrust(p: Vec3, c: i128, ca: i128, sa: i128) -> (f: Vec3)
    requires
        -CMD_MAX <= c <= CMD_MAX,
        -TRIG_MAX <= ca <= TRIG_MAX,
        -TRIG_MAX <= sa <= TRIG_MAX,
        p@.bounded(ATT_BOUND as int),
    ensures
        f@ == thrust_force(p@, c as int, ca as int, sa as int),
        f@.bounded(FORCE_BOUND as int),
{
    proof {
        lemma_mul_bound(c as int, sa as int, CMD_MAX as int, TRIG_MAX as int);
        lemma_mul_bound(c as int, ca as int, CMD_MAX as int, TRIG_MAX as int);
    }
    let cs: i128 = c * sa;
    proof {
        lemma_mul_bound(cs as int, p@.y, CMD_MAX as int * TRIG_MAX as int, ATT_BOUND as int);
        lemma_mul_bound(cs as int, p@.x, CMD_MAX as int * TRIG_MAX as int, ATT_BOUND as int);
    }
    Vec3 { x: cs * p.y, y: -(cs * p.x), z: c * ca }
}

impl Qstate {
    /// Builds the platform state from a radius and an angular offset: the
    /// first attachment is the X unit vector scaled by `r` and rotated
    /// about Z by the offset (so at `(r * offset.cos, r * offset.sin, 0)`),
    /// and each further attachment is the previous one turned by another
    /// quarter turn about Z. All commands start at zero; the cant angle is
    /// stored for every later force query.
    ///
    /// A zero radius degenerates all attachments to the origin, and a
    /// negative one mirrors the layout; neither is rejected.
    pub fn new_with_offset(r: i128, offset: Rot, cant: Rot) -> (s: Qstate)
        requires
            -RADIUS_MAX <= r <= RADIUS_MAX,
            -TRIG_MAX <= offset.cos <= TRIG_MAX,
            -TRIG_MAX <= offset.sin <= TRIG_MAX,
            -TRIG_MAX <= cant.cos <= TRIG_MAX,
            -TRIG_MAX <= cant.sin <= TRIG_MAX,
        ensures
            s@.wf(),
            s@.m1 == 0 && s@.m2 == 0 && s@.m3 == 0 && s@.m4 == 0,
            s@.cant_cos == cant.cos as int,
            s@.cant_sin == cant.sin as int,
            s@.m1p == (V3 { x: r * offset.cos, y: r * offset.sin, z: 0 }),
            s@.m2p == s@.m1p.rot90(),
            s@.m3p == s@.m2p.rot90(),
            s@.m4p == s@.m3p.rot90(),
    {
        proof {
            lemma_mul_bound(r as int, offset.cos as int, RADIUS_MAX as int, TRIG_MAX as int);
            lemma_mul_bound(r as int, offset.sin as int, RADIUS_MAX as int, TRIG_MAX as int);
        }
        let m1p = Vec3 { x: r * offset.cos, y: r * offset.sin, z: 0 };
        let m2p = m1p.rot90();
        let m3p = m2p.rot90();
        let m4p = m3p.rot90();
        Qstate { m1: 0, m2: 0, m3: 0, m4: 0, m1p, m2p, m3p, m4p, cant }
    }

    /// Current command of one actuator.
    pub fn get(&self, m: BM) -> (r: i128)
        ensures
            r as int == self@.command(m),
    {
        match m {
            BM::M1 => self.m1,
            BM::M2 => self.m2,
            BM::M3 => self.m3,
            BM::M4 => self.m4,
        }
    }

    /// Replaces the command of one actuator. Nothing else changes, and
    /// nothing is recomputed: the next wrench query reads the new value.
    pub fn set(&mut self, m: BM, v: i128)
        requires
            -CMD_MAX <= v <= CMD_MAX,
        ensures
            final(self)@ == old(self)@.with_command(m, v as int),
            old(self)@.wf() ==> final(self)@.wf(),
    {
        match m {
            BM::M1 => self.m1 = v,
            BM::M2 => self.m2 = v,
            BM::M3 => self.m3 = v,
            BM::M4 => self.m4 = v,
        }
    }

    /// Fixed attachment point of one actuator.
    pub fn attachment(&self, m: BM) -> (r: Vec3)
        ensures
            r@ == self@.attach(m),
    {
        match m {
            BM::M1 => self.m1p,
            BM::M2 => self.m2p,
            BM::M3 => self.m3p,
            BM::M4 => self.m4p,
        }
    }

    /// Wrench contribution of one actuator: its canted thrust, and the
    /// torque of that thrust about the body origin.
    pub fn get_force(&self, m: BM) -> (w: Wrench)
        requires
            self@.wf(),
        ensures
            w@.force == self@.force_of(m),
            w@.torque == self@.attach(m).cross(self@.force_of(m)),
            w@ == self@.wrench_of(m),
            w@.force.bounded(FORCE_BOUND as int),
            w@.torque.bounded(TORQUE_BOUND as int),
    {
        let p = self.attachment(m);
        let c: i128 = self.get(m);
        let sa: i128 = match m {
            BM::M1 | BM::M3 => self.cant.sin,
            BM::M2 | BM::M4 => -self.cant.sin,
        };
        let f = canted_thrust(p, c, self.cant.cos, sa);
        proof {
            lemma_cross_fits(p@, f@, ATT_BOUND as int, FORCE_BOUND as int);
        }
        let tq = p.cross(f);
        Wrench { force: f, torque: tq }
    }

    /// The resultant wrench of the whole platform: the four actuator
    /// contributions summed in the fixed order M1, M2, M3, M4. The result
    /// is a function of the state alone, so identical states always give
    /// identical wrenches.
    pub fn get_total_forces(&self) -> (w: Wrench)
        requires
            self@.wf(),
        ensures
            w@ == self@.total_wrench(),
    {
        let w1 = self.get_force(BM::M1);
        let w2 = self.get_force(BM::M2);
        let w3 = self.get_force(BM::M3);
        let w4 = self.get_force(BM::M4);
        w1.add(w2).add(w3).add(w4)
    }
}

} // verus!
