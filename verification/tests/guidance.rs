//! Apsis-targeting guidance: the zero cases and the burn itself.

use kosmoss::config::spacecraft::SimpleSat;
use kosmoss::gnc::hohmann::{ApsisTargeting, ApsisType};
use kosmoss::numerics::vec3::Vec3;

fn perigee_state() -> (Vec3, Vec3) {
    // Perigee 6421 km of a 6421 x 6771 km orbit.
    (Vec3::new(6_421_000_000_000, 0, 0), Vec3::new(0, 7_982_657_753, 0))
}

#[test]
fn zero_force_before_start_time() {
    let g = ApsisTargeting::new(6_871_000_000_000, ApsisType::Apogee, 10_000_000);
    let (r, v) = perigee_state();
    // Any call before the configured start time returns the zero vector.
    assert_eq!(g.get_desired_force(&SimpleSat, &r, &v, 0), Vec3::new(0, 0, 0));
    assert_eq!(g.get_desired_force(&SimpleSat, &r, &v, 9_999_999), Vec3::new(0, 0, 0));
}

#[test]
fn zero_force_when_apsis_already_on_target() {
    let (r, v) = perigee_state();
    // The computed apogee is 6_770_998_476_000; a target within the
    // hundred-metre tolerance of it asks for nothing.
    let g = ApsisTargeting::new(6_771_000_000_000, ApsisType::Apogee, 0);
    assert_eq!(g.get_desired_force(&SimpleSat, &r, &v, 1), Vec3::new(0, 0, 0));
}

#[test]
fn zero_force_away_from_the_burn_point() {
    // Raising the perigee calls for a burn at apogee; standing at perigee
    // the guidance must stay quiet.
    let (r, v) = perigee_state();
    let g = ApsisTargeting::new(6_500_000_000_000, ApsisType::Perigee, 0);
    assert_eq!(g.get_desired_force(&SimpleSat, &r, &v, 1), Vec3::new(0, 0, 0));
}

#[test]
fn prograde_burn_at_perigee_raises_apogee() {
    // Raising the apogee by 100 km from perigee: a prograde force of
    // mass times the vis-viva speed change.
    let (r, v) = perigee_state();
    let g = ApsisTargeting::new(6_871_000_000_000, ApsisType::Apogee, 0);
    let f = g.get_desired_force(&SimpleSat, &r, &v, 1);
    assert_eq!(f, Vec3::new(0, 2_842_525_700, 0));
}

#[test]
fn burn_magnitude_is_clamped() {
    // A far target wants more than 100 m/s; the commanded force is
    // clamped to mass times 100 m/s along the velocity.
    let (r, v) = perigee_state();
    let g = ApsisTargeting::new(60_000_000_000_000, ApsisType::Apogee, 0);
    let f = g.get_desired_force(&SimpleSat, &r, &v, 1);
    assert_eq!(f, Vec3::new(0, 10_000_000_000, 0));
    assert_eq!(g.get_apsis_type(), ApsisType::Apogee);
    assert_eq!(g.get_target_radius(), 60_000_000_000_000);
}
