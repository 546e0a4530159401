//! Specific orbital energy and angular momentum, the integrator's
//! regression signals.

use vstd::prelude::*;
use crate::constants::MU_EARTH;
use crate::models::state::State;
use crate::numerics::fxp::{div_floor, fits_i64, SCALE};
use crate::numerics::vec3::{
    bounded, can_cross, can_vscale, spec_cross, spec_norm, spec_norm_sq, spec_vscale, Vec3,
};
use crate::physics::drag::VEL_LIMIT;
use crate::physics::gravity::{MIN_RADIUS, POS_LIMIT};

verus! {

/// Kinetic part: m |v|^2 / 2, rounded to nearest at the final rescaling
/// (the divisor folds the two fixed-point scales of m and |v|^2).
pub open spec fn spec_kinetic_energy(s: State) -> int {
    let d = 2_000_000_000_000int;
    (2 * (s.mass * spec_norm_sq(s.velocity)) + d) / (2 * d)
}

/// Potential part: mu m / r over the radius in metres, rounded to nearest
/// (entering the energy with a minus sign).
pub open spec fn spec_potential_magnitude(s: State) -> int {
    let r_m = spec_norm(s.position) / (SCALE as int);
    (2 * (MU_EARTH * s.mass) + r_m) / (2 * r_m)
}

/// Total mechanical energy: kinetic minus the potential magnitude.
pub open spec fn spec_energy(s: State) -> int {
    spec_kinetic_energy(s) - spec_potential_magnitude(s)
}

pub open spec fn can_energy(s: State) -> bool {
    &&& bounded(s.position, POS_LIMIT as int)
    &&& spec_norm(s.position) >= MIN_RADIUS
    &&& bounded(s.velocity, VEL_LIMIT as int)
    &&& 0 < s.mass <= crate::models::spacecraft::MASS_LIMIT
    &&& fits_i64(spec_kinetic_energy(s))
    &&& fits_i64(spec_potential_magnitude(s))
    &&& fits_i64(spec_energy(s))
}

/// Mechanical energy (kinetic plus gravitational potential) of the state.
pub fn calculate_energy(state: &State) -> (r: i64)
    requires
        can_energy(*state),
    ensures
        r == spec_energy(*state),
{
    let vsq = state.velocity.norm_sq();
    let d: i128 = 2_000_000_000_000;
    proof {
        assert(spec_norm_sq(state.velocity) <= 30_000_000_000_000_000_000_000int)
            by (nonlinear_arith)
            requires
                bounded(state.velocity, VEL_LIMIT as int);
        assert(0 <= (state.mass as int) * spec_norm_sq(state.velocity)
            <= 30_000_000_000_000_000_000_000_000_000_000_000_000int) by (nonlinear_arith)
            requires
                0 < state.mass as int <= 1_000_000_000_000_000int,
                0 <= spec_norm_sq(state.velocity) <= 30_000_000_000_000_000_000_000int;
    }
    let ke = div_floor(2 * ((state.mass as i128) * vsq) + d, 2 * d) as i64;
    let rm = state.position.norm();
    let r_m = ((rm as u64) / 1_000_000) as i64;
    proof {
        assert(r_m >= 1_000_000);
    }
    let pe = div_floor(
        2 * ((MU_EARTH as i128) * (state.mass as i128)) + (r_m as i128),
        2 * (r_m as i128),
    ) as i64;
    ke - pe
}

pub open spec fn can_angular_momentum(s: State) -> bool {
    &&& can_vscale(s.velocity, s.mass as int)
    &&& can_cross(s.position, spec_vscale(s.velocity, s.mass as int))
}

/// Orbital angular momentum r x (m v) of the state.
pub fn calculate_angular_momentum(state: &State) -> (r: Vec3)
    requires
        can_angular_momentum(*state),
    ensures
        r == spec_cross(state.position, spec_vscale(state.velocity, state.mass as int)),
{
    let mv = state.velocity.scale(state.mass);
    state.position.cross(&mv)
}

} // verus!
