//! Vector-space behaviour of the state algebra on concrete values.

use kosmoss::config::spacecraft::SimpleSat;
use kosmoss::models::state::State;
use kosmoss::numerics::fxp::SCALE;
use kosmoss::numerics::quaternion::Quaternion;
use kosmoss::numerics::vec3::Vec3;

fn sample(px: i64, vy: i64, met: i64) -> State {
    let mut s = State::new(
        &SimpleSat,
        SimpleSat::inertia_tensor(),
        Vec3::new(px, -2 * px, 3 * px),
        Vec3::new(7 * vy, vy, -5 * vy),
        Quaternion::new(1_000_000, 2_000, -3_000, 4_000),
        Vec3::new(10_000, -20_000, 30_000),
        5_000_000,
    );
    s.mission_elapsed_time = met;
    s
}

#[test]
fn add_is_associative_on_continuous_fields() {
    let a = sample(6_771_000_000_000, 7_000_000_000, 1_000_000);
    let b = sample(1_234_567, -44_000, 2_000_000);
    let c = sample(-9_876_543, 55_000, 3_000_000);
    let left = a.add(&b).add(&c);
    let right = a.add(&b.add(&c));
    assert_eq!(left, right);
}

#[test]
fn scale_by_one_is_identity() {
    let a = sample(6_771_000_000_000, 7_000_000_000, 1_000_000);
    assert_eq!(a.scale(SCALE), a);
}

#[test]
fn scale_distributes_over_add_within_one_raw_unit() {
    let a = sample(6_771_000_000_001, 7_000_000_003, 1_000_001);
    let b = sample(123_456_789, -987_655, 777_777);
    let k: i64 = 333_333;  // scaling by about a third
    let l = a.add(&b).scale(k);
    let r = a.scale(k).add(&b.scale(k));
    let pairs = [
        (l.position.x, r.position.x),
        (l.position.y, r.position.y),
        (l.position.z, r.position.z),
        (l.velocity.x, r.velocity.x),
        (l.velocity.y, r.velocity.y),
        (l.velocity.z, r.velocity.z),
        (l.quaternion.w, r.quaternion.w),
        (l.quaternion.x, r.quaternion.x),
        (l.quaternion.y, r.quaternion.y),
        (l.quaternion.z, r.quaternion.z),
        (l.angular_velocity.x, r.angular_velocity.x),
        (l.angular_velocity.y, r.angular_velocity.y),
        (l.angular_velocity.z, r.angular_velocity.z),
        (l.mission_elapsed_time, r.mission_elapsed_time),
    ];
    for (x, y) in pairs {
        assert!((x - y).abs() <= 1, "components {x} and {y} differ by more than rounding");
    }
}

#[test]
fn add_and_scale_carry_left_operand_fields() {
    let a = sample(6_771_000_000_000, 7_000_000_000, 1_000_000);
    let mut b = sample(1, 2, 3);
    b.epoch = 99;
    b.fuel_mass = 7;
    let sum = a.add(&b);
    assert_eq!(sum.mass, a.mass);
    assert_eq!(sum.inertia_tensor, a.inertia_tensor);
    assert_eq!(sum.epoch, a.epoch);
    assert_eq!(sum.fuel_mass, a.fuel_mass);
    assert_eq!(sum.mission_elapsed_time, a.mission_elapsed_time + b.mission_elapsed_time);
    let scaled = a.scale(2_000_000);
    assert_eq!(scaled.mass, a.mass);
    assert_eq!(scaled.epoch, a.epoch);
    assert_eq!(scaled.position.x, 2 * a.position.x);
}

#[test]
fn new_state_carries_a_tenth_of_mass_as_fuel() {
    let s = sample(1, 1, 0);
    assert_eq!(s.mass, 100_000_000);
    assert_eq!(s.fuel_mass, 10_000_000);
    let z = State::zero(&SimpleSat);
    assert_eq!(z.fuel_mass, 0);
    assert_eq!(z.quaternion, Quaternion::new(1_000_000, 0, 0, 0));
}
