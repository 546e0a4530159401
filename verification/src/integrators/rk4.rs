//! The classic fixed-step fourth-order Runge-Kutta integrator, generic
//! over the equations of motion.
//!
//! One step from state s with step dt:
//! k1 = f(s); k2 = f(s + k1 dt/2); k3 = f(s + k2 dt/2); k4 = f(s + k3 dt);
//! result = s + (k1 + 2 k2 + 2 k3 + k4) (dt/6).
//! The integrator only relies on the state's `add` and `scale`, keeps no
//! memory between calls, and its contract is the composition above,
//! exactly.

use vstd::prelude::*;
use crate::models::state::{
    can_state_add, can_state_scale, spec_state_add, spec_state_scale, State,
};
use crate::numerics::fxp::{div_floor, fx_half, spec_fx_half, SCALE};
use crate::physics::dynamics::EquationsOfMotion;

verus! {

/// The factor two in fixed point, weighting the middle derivatives.
pub const TWO_FX: i64 = 2_000_000;

pub open spec fn spec_rk4_k1<E: EquationsOfMotion>(e: E, s: State) -> State {
    e.model(s)
}

pub open spec fn spec_rk4_s2<E: EquationsOfMotion>(e: E, s: State, dt: int) -> State {
    spec_state_add(s, spec_state_scale(spec_rk4_k1(e, s), spec_fx_half(dt)))
}

pub open spec fn spec_rk4_k2<E: EquationsOfMotion>(e: E, s: State, dt: int) -> State {
    e.model(spec_rk4_s2(e, s, dt))
}

pub open spec fn spec_rk4_s3<E: EquationsOfMotion>(e: E, s: State, dt: int) -> State {
    spec_state_add(s, spec_state_scale(spec_rk4_k2(e, s, dt), spec_fx_half(dt)))
}

pub open spec fn spec_rk4_k3<E: EquationsOfMotion>(e: E, s: State, dt: int) -> State {
    e.model(spec_rk4_s3(e, s, dt))
}

pub open spec fn spec_rk4_s4<E: EquationsOfMotion>(e: E, s: State, dt: int) -> State {
    spec_state_add(s, spec_state_scale(spec_rk4_k3(e, s, dt), dt))
}

pub open spec fn spec_rk4_k4<E: EquationsOfMotion>(e: E, s: State, dt: int) -> State {
    e.model(spec_rk4_s4(e, s, dt))
}

/// The weighted sum (k1 + 2 k2) + (2 k3 + k4).
pub open spec fn spec_rk4_sum<E: EquationsOfMotion>(e: E, s: State, dt: int) -> State {
    spec_state_add(
        spec_state_add(
            spec_rk4_k1(e, s),
            spec_state_scale(spec_rk4_k2(e, s, dt), 2 * SCALE),
        ),
        spec_state_add(
            spec_state_scale(spec_rk4_k3(e, s, dt), 2 * SCALE),
            spec_rk4_k4(e, s, dt),
        ),
    )
}

/// The full step: s + sum * (dt/6).
pub open spec fn spec_rk4_step<E: EquationsOfMotion>(e: E, s: State, dt: int) -> State {
    spec_state_add(s, spec_state_scale(spec_rk4_sum(e, s, dt), dt / 6))
}

/// All conditions under which one step is defined: the equations of
/// motion accept each of the four evaluation points, and every scaled or
/// summed intermediate stays in machine range.
pub open spec fn spec_rk4_defined<E: EquationsOfMotion>(e: E, s: State, dt: int) -> bool {
    &&& 0 < dt <= i64::MAX
    &&& e.ok(s)
    &&& can_state_scale(spec_rk4_k1(e, s), spec_fx_half(dt))
    &&& can_state_add(s, spec_state_scale(spec_rk4_k1(e, s), spec_fx_half(dt)))
    &&& e.ok(spec_rk4_s2(e, s, dt))
    &&& can_state_scale(spec_rk4_k2(e, s, dt), spec_fx_half(dt))
    &&& can_state_add(s, spec_state_scale(spec_rk4_k2(e, s, dt), spec_fx_half(dt)))
    &&& e.ok(spec_rk4_s3(e, s, dt))
    &&& can_state_scale(spec_rk4_k3(e, s, dt), dt)
    &&& can_state_add(s, spec_state_scale(spec_rk4_k3(e, s, dt), dt))
    &&& e.ok(spec_rk4_s4(e, s, dt))
    &&& can_state_scale(spec_rk4_k2(e, s, dt), 2 * SCALE)
    &&& can_state_scale(spec_rk4_k3(e, s, dt), 2 * SCALE)
    &&& can_state_add(
        spec_rk4_k1(e, s),
        spec_state_scale(spec_rk4_k2(e, s, dt), 2 * SCALE),
    )
    &&& can_state_add(
        spec_state_scale(spec_rk4_k3(e, s, dt), 2 * SCALE),
        spec_rk4_k4(e, s, dt),
    )
    &&& can_state_add(
        spec_state_add(
            spec_rk4_k1(e, s),
            spec_state_scale(spec_rk4_k2(e, s, dt), 2 * SCALE),
        ),
        spec_state_add(
            spec_state_scale(spec_rk4_k3(e, s, dt), 2 * SCALE),
            spec_rk4_k4(e, s, dt),
        ),
    )
    &&& can_state_scale(spec_rk4_sum(e, s, dt), dt / 6)
    &&& can_state_add(s, spec_state_scale(spec_rk4_sum(e, s, dt), dt / 6))
}

pub struct RK4<E: EquationsOfMotion> {
    pub eom: E,
}

impl<E: EquationsOfMotion> RK4<E> {
    pub fn new(eom: E) -> (r: RK4<E>)
        ensures
            r.eom == eom,
    {
        RK4 { eom }
    }

    /// Advances the state by one step of size `dt`, purely functionally.
    pub fn integrate(&self, state: &State, dt: i64) -> (r: State)
        requires
            spec_rk4_defined(self.eom, *state, dt as int),
        ensures
            r == spec_rk4_step(self.eom, *state, dt as int),
    {
        let hd = fx_half(dt);
        let k1 = self.eom.compute_derivative(state);
        let s2 = state.add(&k1.scale(hd));
        let k2 = self.eom.compute_derivative(&s2);
        let s3 = state.add(&k2.scale(hd));
        let k3 = self.eom.compute_derivative(&s3);
        let s4 = state.add(&k3.scale(dt));
        let k4 = self.eom.compute_derivative(&s4);
        let sixth = div_floor(dt as i128, 6) as i64;
        let left = k1.add(&k2.scale(TWO_FX));
        let right = k3.scale(TWO_FX).add(&k4);
        let sum = left.add(&right);
        state.add(&sum.scale(sixth))
    }
}

} // verus!
