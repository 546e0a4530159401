//! The spacecraft mode governor: a finite-state machine over the angular
//! velocity magnitude and the elapsed time, with minimum-dwell hysteresis.
//!
//! The transition rule is a pure function of (mode, angular-velocity
//! magnitude, elapsed time, last transition time); `evaluate_transition`
//! promises to follow it exactly, step by step.

use vstd::prelude::*;
use crate::fsm::spacecraft_states::SpacecraftState;
use crate::models::state::State;
use crate::numerics::vec3::{bounded, spec_norm, COMP_LIMIT};

verus! {

/// Angular-velocity magnitude above which a quiet vehicle must detumble,
/// and below which detumbling is done: 0.01 rad/s, fixed point.
pub const OMEGA_THRESHOLD: i64 = 10_000;

/// Angular-velocity magnitude that forces an emergency: 0.5 rad/s, fixed
/// point.
pub const OMEGA_EMERGENCY: i64 = 500_000;

/// Minimum dwell in maneuver preparation: five seconds, fixed point.
pub const PREP_DWELL: i64 = 5_000_000;

/// Minimum dwell in emergency: thirty seconds, fixed point.
pub const EMERGENCY_DWELL: i64 = 30_000_000;

/// Rejected maneuver commands are noticed at most once per ten seconds of
/// simulated time, fixed point.
pub const NOTICE_PERIOD: i64 = 10_000_000;

pub struct SpacecraftFSM {
    pub current_state: SpacecraftState,
    pub angular_velocity_threshold: i64,
    pub emergency_angular_velocity: i64,
    pub last_state_change: i64,
    pub last_message_time: i64,
}

/// The complete transition table: where the governor goes from `mode` when
/// it observes angular-velocity magnitude `omega` at time `t`, having last
/// changed state at `last_change`.
pub open spec fn spec_next_mode(
    mode: SpacecraftState,
    omega: int,
    t: int,
    last_change: int,
) -> SpacecraftState {
    match mode {
        SpacecraftState::SafeMode => if omega > OMEGA_THRESHOLD {
            SpacecraftState::Detumbling
        } else {
            SpacecraftState::SafeMode
        },
        SpacecraftState::Detumbling => if omega < OMEGA_THRESHOLD {
            SpacecraftState::NominalOperation
        } else {
            SpacecraftState::Detumbling
        },
        SpacecraftState::NominalOperation => if omega > OMEGA_EMERGENCY {
            SpacecraftState::Emergency
        } else {
            SpacecraftState::NominalOperation
        },
        SpacecraftState::ManeuverPrep => if omega < OMEGA_THRESHOLD && t - last_change
            > PREP_DWELL {
            SpacecraftState::Maneuvering
        } else {
            SpacecraftState::ManeuverPrep
        },
        SpacecraftState::Maneuvering => if omega > OMEGA_EMERGENCY {
            SpacecraftState::Emergency
        } else {
            SpacecraftState::Maneuvering
        },
        SpacecraftState::Emergency => if omega < OMEGA_THRESHOLD && t - last_change
            > EMERGENCY_DWELL {
            SpacecraftState::SafeMode
        } else {
            SpacecraftState::Emergency
        },
    }
}

/// The governor's invariant: its thresholds are the named configuration
/// constants, and its timestamps stay well within range.
pub open spec fn fsm_wf(m: SpacecraftFSM) -> bool {
    &&& m.angular_velocity_threshold == OMEGA_THRESHOLD
    &&& m.emergency_angular_velocity == OMEGA_EMERGENCY
    &&& -4_000_000_000_000_000_000 <= m.last_state_change <= 4_000_000_000_000_000_000
    &&& -4_000_000_000_000_000_000 <= m.last_message_time <= 4_000_000_000_000_000_000
}

/// Observations the governor may be fed: a state whose angular velocity is
/// in vector range and whose clock is well within range.
pub open spec fn observable(s: State) -> bool {
    &&& bounded(s.angular_velocity, COMP_LIMIT as int)
    &&& -4_000_000_000_000_000_000 <= s.mission_elapsed_time <= 4_000_000_000_000_000_000
}

impl SpacecraftFSM {
    /// A fresh governor: safe mode, thresholds from the named constants.
    pub fn new() -> (r: SpacecraftFSM)
        ensures
            r.current_state == SpacecraftState::SafeMode,
            r.last_state_change == 0,
            r.last_message_time == -1_000_000,
            fsm_wf(r),
    {
        SpacecraftFSM {
            current_state: SpacecraftState::SafeMode,
            angular_velocity_threshold: OMEGA_THRESHOLD,
            emergency_angular_velocity: OMEGA_EMERGENCY,
            last_state_change: 0,
            last_message_time: -1_000_000,
        }
    }

    pub fn get_current_state(&self) -> (r: SpacecraftState)
        ensures
            r == self.current_state,
    {
        self.current_state
    }

    /// Moves to `new_state`, timestamping the change; a no-op when already
    /// there.
    fn transition_to(&mut self, new_state: SpacecraftState, time: i64)
        ensures
            final(self).current_state == new_state,
            old(self).current_state != new_state ==> final(self).last_state_change == time,
            old(self).current_state == new_state ==> final(self).last_state_change == old(self).last_state_change,
            final(self).angular_velocity_threshold == old(self).angular_velocity_threshold,
            final(self).emergency_angular_velocity == old(self).emergency_angular_velocity,
            final(self).last_message_time == old(self).last_message_time,
    {
        if !(self.current_state == new_state) {
            self.current_state = new_state;
            self.last_state_change = time;
        }
    }

    /// One governor step: applies the transition table to the observed
    /// angular-velocity magnitude and the state's elapsed time.
    pub fn evaluate_transition(&mut self, state: &State)
        requires
            fsm_wf(*old(self)),
            observable(*state),
        ensures
            fsm_wf(*final(self)),
            final(self).current_state == spec_next_mode(
                old(self).current_state,
                spec_norm(state.angular_velocity),
                state.mission_elapsed_time as int,
                old(self).last_state_change as int,
            ),
            final(self).current_state != old(self).current_state ==> final(self).last_state_change == state.mission_elapsed_time,
            final(self).current_state == old(self).current_state ==> final(self).last_state_change == old(self).last_state_change,
            final(self).last_message_time == old(self).last_message_time,
    {
        let angular_velocity = state.angular_velocity.norm();
        let current_time = state.mission_elapsed_time;
        match self.current_state {
            SpacecraftState::SafeMode => {
                if angular_velocity > self.angular_velocity_threshold {
                    self.transition_to(SpacecraftState::Detumbling, current_time);
                }
            },
            SpacecraftState::Detumbling => {
                if angular_velocity < self.angular_velocity_threshold {
                    self.transition_to(SpacecraftState::NominalOperation, current_time);
                }
            },
            SpacecraftState::NominalOperation => {
                if angular_velocity > self.emergency_angular_velocity {
                    self.transition_to(SpacecraftState::Emergency, current_time);
                }
            },
            SpacecraftState::ManeuverPrep => {
                self.evaluate_maneuver_prep(angular_velocity, current_time);
            },
            SpacecraftState::Maneuvering => {
                self.evaluate_maneuvering(angular_velocity, current_time);
            },
            SpacecraftState::Emergency => {
                self.evaluate_emergency(angular_velocity, current_time);
            },
        }
    }

    /// Leaves preparation for the burn only once the vehicle is quiet and
    /// the minimum preparation dwell has passed.
    fn evaluate_maneuver_prep(&mut self, angular_velocity: i64, time: i64)
        requires
            fsm_wf(*old(self)),
            old(self).current_state == SpacecraftState::ManeuverPrep,
            -4_000_000_000_000_000_000 <= time <= 4_000_000_000_000_000_000,
        ensures
            fsm_wf(*final(self)),
            final(self).current_state == spec_next_mode(
                old(self).current_state,
                angular_velocity as int,
                time as int,
                old(self).last_state_change as int,
            ),
            final(self).current_state != old(self).current_state ==> final(self).last_state_change == time,
            final(self).current_state == old(self).current_state ==> final(self).last_state_change == old(self).last_state_change,
            final(self).last_message_time == old(self).last_message_time,
    {
        if angular_velocity < self.angular_velocity_threshold && time - self.last_state_change
            > PREP_DWELL {
            self.transition_to(SpacecraftState::Maneuvering, time);
        }
    }

    /// A burn that starts tumbling too fast is aborted into emergency.
    fn evaluate_maneuvering(&mut self, angular_velocity: i64, time: i64)
        requires
            fsm_wf(*old(self)),
            old(self).current_state == SpacecraftState::Maneuvering,
            -4_000_000_000_000_000_000 <= time <= 4_000_000_000_000_000_000,
        ensures
            fsm_wf(*final(self)),
            final(self).current_state == spec_next_mode(
                old(self).current_state,
                angular_velocity as int,
                time as int,
                old(self).last_state_change as int,
            ),
            final(self).current_state != old(self).current_state ==> final(self).last_state_change == time,
            final(self).current_state == old(self).current_state ==> final(self).last_state_change == old(self).last_state_change,
            final(self).last_message_time == old(self).last_message_time,
    {
        if angular_velocity > self.emergency_angular_velocity {
            self.transition_to(SpacecraftState::Emergency, time);
        }
    }

    /// Emergency ends in safe mode only after the vehicle has been quiet
    /// for the full emergency dwell.
    fn evaluate_emergency(&mut self, angular_velocity: i64, time: i64)
        requires
            fsm_wf(*old(self)),
            old(self).current_state == SpacecraftState::Emergency,
            -4_000_000_000_000_000_000 <= time <= 4_000_000_000_000_000_000,
        ensures
            fsm_wf(*final(self)),
            final(self).current_state == spec_next_mode(
                old(self).current_state,
                angular_velocity as int,
                time as int,
                old(self).last_state_change as int,
            ),
            final(self).current_state != old(self).current_state ==> final(self).last_state_change == time,
            final(self).current_state == old(self).current_state ==> final(self).last_state_change == old(self).last_state_change,
            final(self).last_message_time == old(self).last_message_time,
    {
        if angular_velocity < self.angular_velocity_threshold && time - self.last_state_change
            > EMERGENCY_DWELL {
            self.transition_to(SpacecraftState::SafeMode, time);
        }
    }

    /// Requests a maneuver.  Granted only from nominal operation; any other
    /// mode rejects it, and a rejection is noticed (by refreshing the
    /// notice timestamp) at most once per `NOTICE_PERIOD` of simulated
    /// time.
    pub fn command_maneuver(&mut self, time: i64) -> (granted: bool)
        requires
            fsm_wf(*old(self)),
            -4_000_000_000_000_000_000 <= time <= 4_000_000_000_000_000_000,
        ensures
            fsm_wf(*final(self)),
            granted == (old(self).current_state == SpacecraftState::NominalOperation),
            granted ==> final(self).current_state == SpacecraftState::ManeuverPrep
                && final(self).last_state_change == time && final(self).last_message_time == old(self).last_message_time,
            !granted ==> final(self).current_state == old(self).current_state && final(self).last_state_change == old(self).last_state_change,
            !granted && time - old(self).last_message_time > NOTICE_PERIOD ==> final(self).last_message_time == time,
            !granted && time - old(self).last_message_time <= NOTICE_PERIOD ==> final(self).last_message_time == old(self).last_message_time,
    {
        if self.current_state == SpacecraftState::NominalOperation {
            self.transition_to(SpacecraftState::ManeuverPrep, time);
            true
        } else if time - self.last_message_time > NOTICE_PERIOD {
            self.last_message_time = time;
            false
        } else {
            false
        }
    }

    /// Attitude control is suppressed exactly in the passive modes: safe
    /// mode and emergency.
    pub fn should_apply_control(&self) -> (r: bool)
        ensures
            r == (self.current_state != SpacecraftState::SafeMode && self.current_state
                != SpacecraftState::Emergency),
    {
        !matches!(self.current_state, SpacecraftState::SafeMode | SpacecraftState::Emergency)
    }

    /// Guidance thrust is applied exactly while maneuvering.
    pub fn should_apply_thrust(&self) -> (r: bool)
        ensures
            r == (self.current_state == SpacecraftState::Maneuvering),
    {
        matches!(self.current_state, SpacecraftState::Maneuvering)
    }

    pub fn get_last_state_change(&self) -> (r: i64)
        ensures
            r == self.last_state_change,
    {
        self.last_state_change
    }
}

/// Law: from safe mode the governor moves to detumbling exactly when the
/// observed angular-velocity magnitude exceeds the threshold -- never a
/// step earlier or later.
pub proof fn lemma_safe_mode_exit_exact(omega: int, t: int, last_change: int)
    ensures
        (spec_next_mode(SpacecraftState::SafeMode, omega, t, last_change)
            == SpacecraftState::Detumbling) <==> omega > OMEGA_THRESHOLD,
        omega <= OMEGA_THRESHOLD ==> spec_next_mode(
            SpacecraftState::SafeMode,
            omega,
            t,
            last_change,
        ) == SpacecraftState::SafeMode,
{
}

} // verus!
