//! The fixed-step integrator over a full orbit: conservation of energy
//! and angular momentum for pure two-body motion.

use kosmoss::config::spacecraft::SimpleSat;
use kosmoss::integrators::rk4::RK4;
use kosmoss::models::state::State;
use kosmoss::numerics::quaternion::Quaternion;
use kosmoss::numerics::vec3::Vec3;
use kosmoss::physics::dynamics::{EquationsOfMotion, SpacecraftDynamics};
use kosmoss::physics::energy::{calculate_angular_momentum, calculate_energy};

fn rel_drift(now: i64, initial: i64) -> f64 {
    ((now - initial).abs() as f64) / (initial.abs() as f64)
}

#[test]
fn rk4_conserves_energy_and_momentum_over_one_period() {
    // A circular orbit at 400 km, no thrust, no torque, no tumbling; at
    // this altitude the atmospheric density rounds to exactly zero, so
    // gravity alone acts.  One full period at dt = 0.1 s.
    let radius: i64 = 6_771_000_000_000;
    let speed: i64 = 7_672_490_413;
    let mut state = State::new(
        &SimpleSat,
        SimpleSat::inertia_tensor(),
        Vec3::new(radius, 0, 0),
        Vec3::new(0, speed, 0),
        Quaternion::new(1_000_000, 0, 0, 0),
        Vec3::new(0, 0, 0),
        0,
    );
    let dynamics = SpacecraftDynamics::new(SimpleSat, None, Some(Vec3::new(0, 0, 0)));
    let integrator = RK4::new(dynamics);
    let e0 = calculate_energy(&state);
    let h0 = calculate_angular_momentum(&state);
    let h0_mag = ((h0.x as f64).powi(2) + (h0.y as f64).powi(2) + (h0.z as f64).powi(2)).sqrt();
    // Period of a 6771 km orbit, about 5544.93 s; dt = 0.1 s.
    let steps = 55_450usize;
    let dt: i64 = 100_000;
    let mut worst_energy: f64 = 0.0;
    let mut worst_momentum: f64 = 0.0;
    for i in 0..steps {
        state = integrator.integrate(&state, dt);
        if i % 500 == 0 || i == steps - 1 {
            let e = calculate_energy(&state);
            worst_energy = worst_energy.max(rel_drift(e, e0));
            let h = calculate_angular_momentum(&state);
            let dh = (((h.x - h0.x) as f64).powi(2) + ((h.y - h0.y) as f64).powi(2)
                + ((h.z - h0.z) as f64).powi(2))
                .sqrt();
            worst_momentum = worst_momentum.max(dh / h0_mag);
        }
    }
    assert!(
        worst_energy < 1e-6,
        "energy drift over one period: {worst_energy}"
    );
    assert!(
        worst_momentum < 1e-6,
        "angular momentum drift over one period: {worst_momentum}"
    );
    // The attitude state never moved.
    assert_eq!(state.quaternion, Quaternion::new(1_000_000, 0, 0, 0));
    assert_eq!(state.angular_velocity, Vec3::new(0, 0, 0));
}

#[test]
fn one_step_matches_the_runge_kutta_composition() {
    // A single step must equal the hand-built k1..k4 combination.
    let radius: i64 = 6_771_000_000_000;
    let speed: i64 = 7_672_490_413;
    let state = State::new(
        &SimpleSat,
        SimpleSat::inertia_tensor(),
        Vec3::new(radius, 0, 0),
        Vec3::new(0, speed, 0),
        Quaternion::new(1_000_000, 0, 0, 0),
        Vec3::new(0, 0, 0),
        0,
    );
    let dt: i64 = 100_000;
    let integrator = RK4::new(SpacecraftDynamics::new(SimpleSat, None, Some(Vec3::new(0, 0, 0))));
    let result = integrator.integrate(&state, dt);
    // Recompose by hand through the public derivative.
    let dynamics = SpacecraftDynamics::new(SimpleSat, None, Some(Vec3::new(0, 0, 0)));
    let hd = (dt + 1) / 2;
    let k1 = dynamics.compute_derivative(&state);
    let s2 = state.add(&k1.scale(hd));
    let k2 = dynamics.compute_derivative(&s2);
    let s3 = state.add(&k2.scale(hd));
    let k3 = dynamics.compute_derivative(&s3);
    let s4 = state.add(&k3.scale(dt));
    let k4 = dynamics.compute_derivative(&s4);
    let sum = k1.add(&k2.scale(2_000_000)).add(&k3.scale(2_000_000).add(&k4));
    let expected = state.add(&sum.scale(dt / 6));
    assert_eq!(result, expected);
}
