//! Force and environment models on concrete values.

use kosmoss::config::spacecraft::SimpleSat;
use kosmoss::models::state::State;
use kosmoss::numerics::quaternion::Quaternion;
use kosmoss::numerics::vec3::Vec3;
use kosmoss::physics::attitude::calculate_torque;
use kosmoss::physics::drag::drag_force;
use kosmoss::physics::energy::{calculate_angular_momentum, calculate_energy};
use kosmoss::physics::environment::{exp_neg, Environment};
use kosmoss::physics::gravity::gravity_acceleration;

fn orbit_state(radius: i64, speed: i64) -> State {
    State::new(
        &SimpleSat,
        SimpleSat::inertia_tensor(),
        Vec3::new(radius, 0, 0),
        Vec3::new(0, speed, 0),
        Quaternion::new(1_000_000, 0, 0, 0),
        Vec3::new(0, 0, 0),
        0,
    )
}

#[test]
fn gravity_points_down_with_textbook_magnitude() {
    // At the Earth's surface: about -9.82 m/s^2 along the radius.
    let a = gravity_acceleration(&Vec3::new(6_371_000_000_000, 0, 0));
    assert_eq!(a, Vec3::new(-9_819_973, 0, 0));
    // At 400 km altitude: about -8.69 m/s^2.
    let b = gravity_acceleration(&Vec3::new(6_771_000_000_000, 0, 0));
    assert_eq!(b, Vec3::new(-8_694_005, 0, 0));
    // Off-axis positions keep the acceleration opposite the position.
    let c = gravity_acceleration(&Vec3::new(4_000_000_000_000, 5_500_000_000_000, 0));
    assert!(c.x < 0 && c.y < 0 && c.z == 0);
}

#[test]
fn density_falls_off_and_vanishes_on_orbit() {
    // On the reference sphere the density is the sea-level value (twelve
    // decimal places).
    let sea = Environment::new(&Vec3::new(6_371_000_000_000, 0, 0));
    assert_eq!(sea.altitude, 0);
    assert_eq!(sea.density, 1_225_000_000_000);
    // At 100 km: 1.138332e-6 kg/m^3, within two parts per million of the
    // real-valued exponential.
    let karman = Environment::new(&Vec3::new(6_471_000_000_000, 0, 0));
    assert_eq!(karman.density, 1_138_332);
    // At 400 km it rounds to exactly zero: below half a picogram per
    // cubic metre nothing is representable.
    let orbit = Environment::new(&Vec3::new(6_771_000_000_000, 0, 0));
    assert_eq!(orbit.density, 0);
    assert_eq!(orbit.solar_flux, 1_361_000_000);
}

#[test]
fn exponential_stays_in_the_unit_interval() {
    assert_eq!(exp_neg(0), 1_000_000_000_000);
    // e^-1 to twelve places.
    assert_eq!(exp_neg(1_000_000), 367_879_441_171);
    let mut last = 1_000_000_000_001;
    for k in 0..42 {
        let v = exp_neg(k * 1_000_000);
        assert!(0 <= v && v <= 1_000_000_000_000);
        assert!(v <= last);
        last = v;
    }
    assert_eq!(exp_neg(41_000_000), 0);
}

#[test]
fn drag_vanishes_at_orbital_altitude_and_opposes_motion_low_down() {
    // 400 km: zero density, zero drag.
    let f = drag_force(
        &SimpleSat,
        &Vec3::new(6_771_000_000_000, 0, 0),
        &Vec3::new(0, 7_672_490_413, 0),
    );
    assert_eq!(f, Vec3::new(0, 0, 0));
    // 50 km: a real force, opposite the velocity.
    let g = drag_force(
        &SimpleSat,
        &Vec3::new(6_421_000_000_000, 0, 0),
        &Vec3::new(0, 7_800_000_000, 0),
    );
    assert!(g.y < 0);
    assert_eq!(g.x, 0);
    assert_eq!(g.z, 0);
}

#[test]
fn drag_at_the_karman_line_matches_the_closed_form() {
    // 100 km altitude, 7848 m/s prograde, the simple satellite:
    // -1/2 * 2.2 * pi * 1.225 e^{-100000/7200} * 7848^2 = -242.286 N.
    let f = drag_force(
        &SimpleSat,
        &Vec3::new(6_471_000_000_000, 0, 0),
        &Vec3::new(0, 7_848_000_000, 0),
    );
    assert_eq!(f, Vec3::new(0, -242_287_380, 0));
    assert!((f.y + 242_280_000i64).abs() <= 10_000);
}

#[test]
fn energy_and_momentum_of_a_circular_orbit() {
    let s = orbit_state(6_771_000_000_000, 7_672_490_413);
    assert_eq!(calculate_energy(&s), -2_943_355_457_314_035);
    let h = calculate_angular_momentum(&s);
    assert_eq!(h, Vec3::new(0, 0, 5_195_043_258_642_300_000));
}

#[test]
fn gravity_gradient_torque_vanishes_for_a_spherical_vehicle() {
    // With a spherical inertia tensor, z x (I z) is parallel to z up to
    // rounding, so the torque is at most a raw unit per component.
    let s = orbit_state(6_771_000_000_000, 7_672_490_413);
    let t = calculate_torque(&s);
    assert!(t.x.abs() <= 2 && t.y.abs() <= 2 && t.z.abs() <= 2);
}

#[test]
fn gravity_gradient_torque_of_an_asymmetric_vehicle() {
    // An off-axis position and an asymmetric inertia tensor give the
    // closed-form 3 mu / (2 r^3) (z_b x I z_b): about 2.3e-5 N*m about z
    // at a 5000 km radius.
    let mut s = orbit_state(3_000_000_000_000, 7_000_000_000);
    s.position = Vec3::new(3_000_000_000_000, 4_000_000_000_000, 0);
    s.inertia_tensor = kosmoss::numerics::mat3::Mat3::diagonal(
        10_000_000,
        20_000_000,
        30_000_000,
    );
    let t = calculate_torque(&s);
    assert_eq!(t, Vec3::new(0, 0, 23));
}
