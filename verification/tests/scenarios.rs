use quadfloat::qstate::Qstate;
use quadfloat::qstate::Rot;
use quadfloat::qstate::BM;
use quadfloat::vecmath::Vec3;

const OFFSET_ZERO: Rot = Rot { cos: 1000, sin: 0 };
const CANT: Rot = Rot { cos: 9950, sin: 998 };

fn set_all(q: &mut Qstate, c1: i128, c2: i128, c3: i128, c4: i128) {
    q.set(BM::M1, c1);
    q.set(BM::M2, c2);
    q.set(BM::M3, c3);
    q.set(BM::M4, c4);
}

#[test]
fn thrust_on_equal_commands() {
    // radius 3, offset 0, all commands 2.0 (command scale 1e3, cant scale
    // 1e4): the lateral forces and every torque cancel; what is left is a
    // vertical force of 4 * 2.0 * cos(0.1), slightly below the raw 8.0.
    let mut q = Qstate::new_with_offset(3000, OFFSET_ZERO, CANT);
    set_all(&mut q, 2000, 2000, 2000, 2000);
    let w = q.get_total_forces();
    assert_eq!(w.force, Vec3 { x: 0, y: 0, z: 4 * 2000 * 9950 });
    assert_eq!(w.torque, Vec3 { x: 0, y: 0, z: 0 });
    // descaled, the vertical force approximates the real-valued model
    let fz = w.force.z as f64 / (1000.0 * 10000.0);
    assert!((fz - 4.0 * 2.0 * (0.1f64).cos()).abs() < 1e-3);
}

#[test]
fn asymmetric_commands_tip_the_torque() {
    // one actuator slightly stronger: a lateral torque appears, while the
    // symmetric part of the command vector still cancels
    let mut q = Qstate::new_with_offset(3000, OFFSET_ZERO, CANT);
    set_all(&mut q, 2000, 2001, 2000, 2000);
    let w = q.get_total_forces();
    // vertical force of the summed commands
    assert_eq!(w.force.z, (2000 + 2001 + 2000 + 2000) * 9950);
    // the X torque carries exactly the surplus of actuator M2 at its arm
    assert_eq!(w.torque.x, 3_000_000 * 9950);
    assert_eq!(w.torque.y, 0);
    // the yaw torque no longer cancels
    assert_ne!(w.torque.z, 0);
}

#[test]
fn commands_back_to_zero_leave_nothing() {
    let mut q = Qstate::new_with_offset(3000, OFFSET_ZERO, CANT);
    set_all(&mut q, 2000, 2001, 2000, 2000);
    let busy = q.get_total_forces();
    assert_ne!(busy.force.z, 0);
    set_all(&mut q, 0, 0, 0, 0);
    let idle = q.get_total_forces();
    assert_eq!(idle.force, Vec3 { x: 0, y: 0, z: 0 });
    assert_eq!(idle.torque, Vec3 { x: 0, y: 0, z: 0 });
}

#[test]
fn zero_radius_degenerates_to_origin() {
    let mut q = Qstate::new_with_offset(0, OFFSET_ZERO, CANT);
    set_all(&mut q, 500, -200, 999, 1);
    assert_eq!(q.attachment(BM::M1), Vec3 { x: 0, y: 0, z: 0 });
    assert_eq!(q.attachment(BM::M3), Vec3 { x: 0, y: 0, z: 0 });
    let w = q.get_total_forces();
    // forces applied at the origin: no lateral tilt arm, no torque
    assert_eq!(w.force, Vec3 { x: 0, y: 0, z: (500 - 200 + 999 + 1) * 9950 });
    assert_eq!(w.torque, Vec3 { x: 0, y: 0, z: 0 });
}
