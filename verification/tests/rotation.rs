//! Quaternion kinematics and rotation matrices on concrete values.

use kosmoss::numerics::quaternion::{compute_quaternion_derivative, Quaternion};
use kosmoss::numerics::vec3::Vec3;

#[test]
fn zero_rate_gives_exactly_zero_derivative() {
    // With zero angular velocity the derivative is the zero quaternion,
    // exactly, whatever the attitude.
    for q in [
        Quaternion::new(1_000_000, 0, 0, 0),
        Quaternion::new(707_107, 707_107, 0, 0),
        Quaternion::new(990_000, 100_000, 50_000, 0),
        Quaternion::new(-123_456, 654_321, -111_111, 999_999),
    ] {
        let d = compute_quaternion_derivative(&q, &Vec3::new(0, 0, 0));
        assert_eq!(d, Quaternion::new(0, 0, 0, 0));
    }
}

#[test]
fn derivative_of_identity_about_x_axis() {
    // q' = q (x) (0, 1 rad/s, 0, 0) / 2 at the identity: (0, 0.5, 0, 0).
    let q = Quaternion::new(1_000_000, 0, 0, 0);
    let d = compute_quaternion_derivative(&q, &Vec3::new(1_000_000, 0, 0));
    assert_eq!(d, Quaternion::new(0, 500_000, 0, 0));
}

#[test]
fn derivative_of_identity_about_z_axis() {
    let q = Quaternion::new(1_000_000, 0, 0, 0);
    let d = compute_quaternion_derivative(&q, &Vec3::new(0, 0, 1_000_000));
    assert_eq!(d, Quaternion::new(0, 0, 0, 500_000));
}

#[test]
fn rotation_matrix_of_identity_and_half_turns() {
    let identity = Quaternion::new(1_000_000, 0, 0, 0).to_rotation_matrix();
    assert_eq!(identity.r0, Vec3::new(1_000_000, 0, 0));
    assert_eq!(identity.r1, Vec3::new(0, 1_000_000, 0));
    assert_eq!(identity.r2, Vec3::new(0, 0, 1_000_000));
    // A half-turn about x flips y and z.
    let half_x = Quaternion::new(0, 1_000_000, 0, 0).to_rotation_matrix();
    assert_eq!(half_x.r0, Vec3::new(1_000_000, 0, 0));
    assert_eq!(half_x.r1, Vec3::new(0, -1_000_000, 0));
    assert_eq!(half_x.r2, Vec3::new(0, 0, -1_000_000));
    // A half-turn about z flips x and y.
    let half_z = Quaternion::new(0, 0, 0, 1_000_000).to_rotation_matrix();
    assert_eq!(half_z.r0, Vec3::new(-1_000_000, 0, 0));
    assert_eq!(half_z.r1, Vec3::new(0, -1_000_000, 0));
    assert_eq!(half_z.r2, Vec3::new(0, 0, 1_000_000));
}

#[test]
fn quaternion_products_of_axes() {
    let qx = Quaternion::new(0, 1_000_000, 0, 0);
    let qy = Quaternion::new(0, 0, 1_000_000, 0);
    // x times itself is the negative unit.
    assert_eq!(qx.multiply(&qx), Quaternion::new(-1_000_000, 0, 0, 0));
    // x times y is z.
    assert_eq!(qx.multiply(&qy), Quaternion::new(0, 0, 0, 1_000_000));
    // The identity is neutral.
    let e = Quaternion::new(1_000_000, 0, 0, 0);
    assert_eq!(e.multiply(&qx), qx);
}

#[test]
fn multiply_renormalizes_its_result() {
    // Slightly long operands still give a unit product.
    let a = Quaternion::new(1_100_000, 0, 0, 0);
    let b = Quaternion::new(1_100_000, 0, 0, 0);
    let p = a.multiply(&b);
    assert_eq!(p, Quaternion::new(1_000_000, 0, 0, 0));
}
