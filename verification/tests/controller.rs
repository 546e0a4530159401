//! The geometric attitude controller: the aligned case and saturation.

use kosmoss::config::spacecraft::SimpleSat;
use kosmoss::gnc::attitude_controller::{GeometricAttitudeController, MAX_TORQUE};
use kosmoss::numerics::fxp::SCALE;
use kosmoss::numerics::quaternion::Quaternion;
use kosmoss::numerics::vec3::Vec3;

fn norm_sq(v: &Vec3) -> i128 {
    (v.x as i128) * (v.x as i128) + (v.y as i128) * (v.y as i128) + (v.z as i128) * (v.z as i128)
}

#[test]
fn aligned_body_frame_with_matched_rate_gives_zero_torque() {
    // Position along x, velocity along y: the desired frame is the
    // identity, and so is the attitude.  A body rate equal to the desired
    // orbital rate about -z leaves both errors exactly zero.
    let controller = GeometricAttitudeController::new(SCALE, 100_000, SimpleSat::inertia_tensor());
    let r = Vec3::new(7_000_000_000_000, 0, 0);
    let v = Vec3::new(0, 7_800_000_000, 0);
    let q = Quaternion::new(1_000_000, 0, 0, 0);
    // The fixed-point orbital rate |v|/|r| is 1114 raw units.
    let w = Vec3::new(0, 0, -1114);
    let t = controller.compute_control_torque(&r, &v, &q, &w);
    assert_eq!(t, Vec3::new(0, 0, 0));
}

#[test]
fn aligned_frame_with_zero_rate_commands_only_the_rate_term() {
    // Same geometry but a still vehicle: only the small rate error acts,
    // and the torque stays far below the saturation bound.
    let controller = GeometricAttitudeController::new(SCALE, 100_000, SimpleSat::inertia_tensor());
    let r = Vec3::new(7_000_000_000_000, 0, 0);
    let v = Vec3::new(0, 7_800_000_000, 0);
    let q = Quaternion::new(1_000_000, 0, 0, 0);
    let w = Vec3::new(0, 0, 0);
    let t = controller.compute_control_torque(&r, &v, &q, &w);
    assert_eq!(t.x, 0);
    assert_eq!(t.y, 0);
    assert!(t.z != 0);
    assert!(norm_sq(&t) <= (MAX_TORQUE as i128) * ((MAX_TORQUE as i128) + 2));
}

#[test]
fn torque_magnitude_never_exceeds_the_saturation_bound() {
    // A quarter-turn misalignment with violent rates and large gains
    // drives the raw law far past the bound; the returned magnitude must
    // still respect it.
    let controller =
        GeometricAttitudeController::new(1_000_000_000, 1_000_000_000, SimpleSat::inertia_tensor());
    let r = Vec3::new(7_000_000_000_000, 0, 0);
    let v = Vec3::new(0, 7_800_000_000, 0);
    // Half-turn about z: maximal attitude error.
    let q = Quaternion::new(0, 0, 0, 1_000_000);
    let w = Vec3::new(50_000_000, -50_000_000, 50_000_000);
    let t = controller.compute_control_torque(&r, &v, &q, &w);
    let m2 = norm_sq(&t);
    assert!(m2 > 0);
    assert!(m2 <= (MAX_TORQUE as i128) * ((MAX_TORQUE as i128) + 2));
}

#[test]
fn moderate_errors_pass_through_unsaturated() {
    // A small misalignment with modest gains stays below the bound and is
    // returned unscaled (its own magnitude is its norm).
    let controller = GeometricAttitudeController::new(100_000, 10_000, SimpleSat::inertia_tensor());
    let r = Vec3::new(7_000_000_000_000, 0, 0);
    let v = Vec3::new(0, 7_800_000_000, 0);
    // A one-degree-ish rotation about z.
    let q = Quaternion::new(999_962, 0, 0, 8_727);
    let w = Vec3::new(0, 0, 0);
    let t = controller.compute_control_torque(&r, &v, &q, &w);
    assert!(norm_sq(&t) <= (MAX_TORQUE as i128) * ((MAX_TORQUE as i128) + 2));
}
