use quadfloat::qstate::Qstate;
use quadfloat::qstate::Rot;
use quadfloat::qstate::Wrench;
use quadfloat::qstate::BM;
use quadfloat::vecmath::Vec3;

// Fixed-point scales used throughout: commands at 1e3, cosine/sine pairs at
// 1e3 for the offset and 1e4 for the cant, radius at 1e3, so attachment
// coordinates come out at 1e6.
const OFFSET_ZERO: Rot = Rot { cos: 1000, sin: 0 };

// cos(0.1) ~ 0.99500, sin(0.1) ~ 0.09983 at scale 1e4.
const CANT: Rot = Rot { cos: 9950, sin: 998 };

fn platform_radius_three() -> Qstate {
    Qstate::new_with_offset(3000, OFFSET_ZERO, CANT)
}

fn dot(a: Vec3, b: Vec3) -> i128 {
    a.x * b.x + a.y * b.y + a.z * b.z
}

#[test]
fn layout_radius_three_offset_zero() {
    let q = platform_radius_three();
    assert_eq!(q.attachment(BM::M1), Vec3 { x: 3_000_000, y: 0, z: 0 });
    assert_eq!(q.attachment(BM::M2), Vec3 { x: 0, y: 3_000_000, z: 0 });
    assert_eq!(q.attachment(BM::M3), Vec3 { x: -3_000_000, y: 0, z: 0 });
    assert_eq!(q.attachment(BM::M4), Vec3 { x: 0, y: -3_000_000, z: 0 });
}

#[test]
fn layout_symmetry_with_offset() {
    // offset of 30 degrees: cos ~ 0.866, sin = 0.5 at scale 1e3
    let q = Qstate::new_with_offset(3000, Rot { cos: 866, sin: 500 }, CANT);
    let a1 = q.attachment(BM::M1);
    let a2 = q.attachment(BM::M2);
    let a3 = q.attachment(BM::M3);
    let a4 = q.attachment(BM::M4);
    assert_eq!(a1, Vec3 { x: 2_598_000, y: 1_500_000, z: 0 });
    // neighbours a quarter turn apart, opposite attachments antipodal
    assert_eq!(dot(a1, a2), 0);
    assert_eq!(dot(a2, a3), 0);
    assert_eq!(dot(a3, a4), 0);
    assert_eq!(dot(a4, a1), 0);
    assert_eq!(a3, Vec3 { x: -a1.x, y: -a1.y, z: 0 });
    assert_eq!(a4, Vec3 { x: -a2.x, y: -a2.y, z: 0 });
    // equal squared magnitude for all four
    let n = dot(a1, a1);
    assert_eq!(dot(a2, a2), n);
    assert_eq!(dot(a3, a3), n);
    assert_eq!(dot(a4, a4), n);
}

#[test]
fn negative_radius_mirrors_layout() {
    let q = Qstate::new_with_offset(-3000, OFFSET_ZERO, CANT);
    assert_eq!(q.attachment(BM::M1), Vec3 { x: -3_000_000, y: 0, z: 0 });
    assert_eq!(q.attachment(BM::M2), Vec3 { x: 0, y: -3_000_000, z: 0 });
}

#[test]
fn set_then_get() {
    let mut q = platform_radius_three();
    assert_eq!(q.get(BM::M2), 0);
    q.set(BM::M2, 123);
    assert_eq!(q.get(BM::M2), 123);
    assert_eq!(q.get(BM::M1), 0);
    assert_eq!(q.get(BM::M3), 0);
    assert_eq!(q.get(BM::M4), 0);
    q.set(BM::M2, -45);
    assert_eq!(q.get(BM::M2), -45);
}

#[test]
fn zero_commands_zero_wrench() {
    let q = Qstate::new_with_offset(1234, Rot { cos: 707, sin: 707 }, CANT);
    let w = q.get_total_forces();
    assert_eq!(w, Wrench::zero());
}

#[test]
fn single_actuator_wrench() {
    let mut q = platform_radius_three();
    q.set(BM::M1, 1000);
    let w = q.get_force(BM::M1);
    // thrust tilted about the attachment (3e6, 0, 0): lateral part along -Y
    // scaled by command * cant sine * axis length, vertical part by the
    // command * cant cosine
    assert_eq!(w.force, Vec3 { x: 0, y: -(1000 * 998 * 3_000_000), z: 1000 * 9950 });
    // torque = attachment x force
    assert_eq!(
        w.torque,
        Vec3 {
            x: 0,
            y: -(3_000_000 * 1000 * 9950),
            z: 3_000_000 * -(1000 * 998 * 3_000_000),
        }
    );
}

#[test]
fn scaling_commands_scales_wrench() {
    let mut q = platform_radius_three();
    q.set(BM::M1, 1500);
    q.set(BM::M2, -700);
    q.set(BM::M3, 300);
    q.set(BM::M4, 999);
    let w1 = q.get_total_forces();
    q.set(BM::M1, 3 * 1500);
    q.set(BM::M2, 3 * -700);
    q.set(BM::M3, 3 * 300);
    q.set(BM::M4, 3 * 999);
    let w3 = q.get_total_forces();
    assert_eq!(w3.force, Vec3 { x: 3 * w1.force.x, y: 3 * w1.force.y, z: 3 * w1.force.z });
    assert_eq!(w3.torque, Vec3 { x: 3 * w1.torque.x, y: 3 * w1.torque.y, z: 3 * w1.torque.z });
}

#[test]
fn adding_commands_adds_wrenches() {
    let mut q = platform_radius_three();
    q.set(BM::M1, 800);
    q.set(BM::M2, -100);
    q.set(BM::M3, 50);
    q.set(BM::M4, 2000);
    let wa = q.get_total_forces();
    q.set(BM::M1, 11);
    q.set(BM::M2, 22);
    q.set(BM::M3, -33);
    q.set(BM::M4, 44);
    let wb = q.get_total_forces();
    q.set(BM::M1, 800 + 11);
    q.set(BM::M2, -100 + 22);
    q.set(BM::M3, 50 - 33);
    q.set(BM::M4, 2000 + 44);
    let wab = q.get_total_forces();
    assert_eq!(wab, wa.add(wb));
}

#[test]
fn repeated_query_is_bit_identical() {
    let mut q = platform_radius_three();
    q.set(BM::M1, 777);
    q.set(BM::M3, -777);
    let w1 = q.get_total_forces();
    let w2 = q.get_total_forces();
    assert_eq!(w1, w2);
}
