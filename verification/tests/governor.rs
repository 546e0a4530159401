//! The mode governor: threshold crossings, dwell times, command gating.

use kosmoss::config::spacecraft::SimpleSat;
use kosmoss::fsm::spacecraft_states::SpacecraftState;
use kosmoss::fsm::state_machine::SpacecraftFSM;
use kosmoss::models::state::State;
use kosmoss::numerics::quaternion::Quaternion;
use kosmoss::numerics::vec3::Vec3;

fn state_with(omega_z: i64, met: i64) -> State {
    let mut s = State::new(
        &SimpleSat,
        SimpleSat::inertia_tensor(),
        Vec3::new(6_771_000_000_000, 0, 0),
        Vec3::new(0, 7_672_490_413, 0),
        Quaternion::new(1_000_000, 0, 0, 0),
        Vec3::new(0, 0, omega_z),
        0,
    );
    s.mission_elapsed_time = met;
    s
}

#[test]
fn safe_mode_exits_exactly_at_threshold_crossing() {
    let mut fsm = SpacecraftFSM::new();
    assert_eq!(fsm.get_current_state(), SpacecraftState::SafeMode);
    // Rising angular-velocity magnitudes; the threshold is 0.01 rad/s
    // (10_000 raw).  At and below it nothing happens.
    for (i, omega) in [2_000i64, 6_000, 9_999, 10_000].iter().enumerate() {
        fsm.evaluate_transition(&state_with(*omega, (i as i64) * 1_000_000));
        assert_eq!(fsm.get_current_state(), SpacecraftState::SafeMode);
    }
    // The first strictly-above observation flips the mode at that step.
    fsm.evaluate_transition(&state_with(10_001, 4_000_000));
    assert_eq!(fsm.get_current_state(), SpacecraftState::Detumbling);
    assert_eq!(fsm.get_last_state_change(), 4_000_000);
}

#[test]
fn control_gating_by_mode() {
    let mut fsm = SpacecraftFSM::new();
    // SafeMode: no control.
    assert!(!fsm.should_apply_control());
    assert!(!fsm.should_apply_thrust());
    // Detumbling: control but no thrust.
    fsm.evaluate_transition(&state_with(20_000, 1_000_000));
    assert_eq!(fsm.get_current_state(), SpacecraftState::Detumbling);
    assert!(fsm.should_apply_control());
    assert!(!fsm.should_apply_thrust());
    // NominalOperation: control but no thrust.
    fsm.evaluate_transition(&state_with(500, 2_000_000));
    assert_eq!(fsm.get_current_state(), SpacecraftState::NominalOperation);
    assert!(fsm.should_apply_control());
    assert!(!fsm.should_apply_thrust());
}

#[test]
fn maneuver_needs_nominal_and_prep_dwell() {
    let mut fsm = SpacecraftFSM::new();
    // Rejected from SafeMode.
    assert!(!fsm.command_maneuver(0));
    // Reach nominal operation.
    fsm.evaluate_transition(&state_with(20_000, 1_000_000));
    fsm.evaluate_transition(&state_with(500, 2_000_000));
    assert_eq!(fsm.get_current_state(), SpacecraftState::NominalOperation);
    // Granted from nominal operation.
    assert!(fsm.command_maneuver(3_000_000));
    assert_eq!(fsm.get_current_state(), SpacecraftState::ManeuverPrep);
    assert_eq!(fsm.get_last_state_change(), 3_000_000);
    // Quiet but within the five-second dwell: stays in preparation.
    fsm.evaluate_transition(&state_with(500, 8_000_000));
    assert_eq!(fsm.get_current_state(), SpacecraftState::ManeuverPrep);
    // Quiet and past the dwell: the burn may start.
    fsm.evaluate_transition(&state_with(500, 8_000_001));
    assert_eq!(fsm.get_current_state(), SpacecraftState::Maneuvering);
    assert!(fsm.should_apply_thrust());
}

#[test]
fn rejection_notices_are_rate_limited() {
    let mut fsm = SpacecraftFSM::new();
    // A rejection long after the last notice refreshes the notice time.
    assert!(!fsm.command_maneuver(20_000_000));
    assert_eq!(fsm.last_message_time, 20_000_000);
    // Rejections within ten seconds leave it alone.
    assert!(!fsm.command_maneuver(25_000_000));
    assert_eq!(fsm.last_message_time, 20_000_000);
    assert!(!fsm.command_maneuver(30_000_000));
    assert_eq!(fsm.last_message_time, 20_000_000);
    // Just past ten seconds it refreshes again.
    assert!(!fsm.command_maneuver(30_000_001));
    assert_eq!(fsm.last_message_time, 30_000_001);
}

#[test]
fn emergency_requires_thirty_second_dwell() {
    let mut fsm = SpacecraftFSM::new();
    fsm.evaluate_transition(&state_with(20_000, 1_000_000));
    // A violent tumble from detumbling stays put (no emergency edge there),
    // but from nominal operation it trips the emergency.
    fsm.evaluate_transition(&state_with(500, 2_000_000));
    fsm.evaluate_transition(&state_with(600_000, 3_000_000));
    assert_eq!(fsm.get_current_state(), SpacecraftState::Emergency);
    assert!(!fsm.should_apply_control());
    // Quiet but within thirty seconds: still in emergency.
    fsm.evaluate_transition(&state_with(100, 33_000_000));
    assert_eq!(fsm.get_current_state(), SpacecraftState::Emergency);
    // Quiet and past the dwell: back to safe mode.
    fsm.evaluate_transition(&state_with(100, 33_000_001));
    assert_eq!(fsm.get_current_state(), SpacecraftState::SafeMode);
}
