//! Apsides, periods and circular velocities on concrete orbits.

use kosmoss::numerics::vec3::Vec3;
use kosmoss::physics::orbital::OrbitalMechanics;

#[test]
fn circular_orbit_apsides_collapse_to_the_radius() {
    let r = Vec3::new(6_771_000_000_000, 0, 0);
    let v = Vec3::new(0, 7_672_490_413, 0);
    let (ra, rp) = OrbitalMechanics::compute_apsides(&r, &v);
    assert_eq!(ra, 6_771_013_542_000);
    assert_eq!(rp, 6_770_986_458_000);
    // Both within twenty metres of the circular radius.
    assert!((ra - 6_771_000_000_000i64).abs() < 20_000_000);
    assert!((rp - 6_771_000_000_000i64).abs() < 20_000_000);
}

#[test]
fn elliptic_orbit_recovers_its_apsides_at_perigee() {
    // Perigee 6421 km, apogee 6771 km; speed at perigee from vis-viva.
    let r = Vec3::new(6_421_000_000_000, 0, 0);
    let v = Vec3::new(0, 7_982_657_753, 0);
    let (ra, rp) = OrbitalMechanics::compute_apsides(&r, &v);
    assert_eq!(ra, 6_770_998_476_000);
    assert_eq!(rp, 6_421_001_524_000);
    // Within ten metres of the constructed apsides.
    assert!((ra - 6_771_000_000_000i64).abs() < 10_000_000);
    assert!((rp - 6_421_000_000_000i64).abs() < 10_000_000);
}

#[test]
fn near_apsis_detection_at_perigee() {
    let r = Vec3::new(6_421_000_000_000, 0, 0);
    let v = Vec3::new(0, 7_982_657_753, 0);
    let (at_apogee, at_perigee) = OrbitalMechanics::is_near_apsis(&r, &v, 100_000_000);
    assert!(!at_apogee);
    assert!(at_perigee);
    // With a huge tolerance both tests pass.
    let (aa, ap) = OrbitalMechanics::is_near_apsis(&r, &v, 1_000_000_000_000);
    assert!(aa && ap);
}

#[test]
fn orbital_period_of_a_low_orbit() {
    // a = 6771 km: about 5544.93 s.
    let p = OrbitalMechanics::compute_orbital_period(6_771_000_000_000);
    assert_eq!(p, 5_544_933_043);
}

#[test]
fn circular_velocity_of_a_low_orbit() {
    // About 7672.49 m/s at 6771 km.
    let v = OrbitalMechanics::compute_circular_velocity(6_771_000_000_000);
    assert_eq!(v, 7_672_490_413);
}
