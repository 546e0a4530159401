//! Atmospheric drag on a spacecraft.
//!
//! F = -1/2 * Cd * A * rho(r) * |v|^2 * v-hat, evaluated as
//! -1/2 * (Cd * A * rho * |v|) * v component-wise.  The density from the
//! environment model carries twelve decimal places, so the factor
//! Cd * A * rho is also carried at twelve places before the speed folds
//! it back to six.

use vstd::prelude::*;
use crate::models::spacecraft::{SpacecraftProperties, AREA_LIMIT, DRAG_COEFF_LIMIT};
use crate::numerics::fxp::{
    fits_i64, fx_half, fx_mul, fx_mul_p12, lemma_fx_mul_bound, lemma_fx_mul_nonneg,
    spec_fx_half, spec_fx_mul, spec_fx_mul_p12,
};
use crate::numerics::vec3::{bounded, spec_norm, Vec3};
use crate::physics::environment::{spec_density, Environment};
use crate::physics::gravity::can_gravity;

verus! {

/// Largest velocity component the drag model accepts: 100 km/s, fixed
/// point.
pub const VEL_LIMIT: i64 = 100_000_000_000;

/// The factor Cd * A * rho, with twelve decimal places (`rho12` carries
/// twelve places, Cd * A six; the six-place rescale leaves twelve).
pub open spec fn spec_drag_coeff_p12(cd: int, area: int, rho12: int) -> int {
    spec_fx_mul(spec_fx_mul(cd, area), rho12)
}

/// The scalar Cd * A * rho * |v|, back at six decimal places.
pub open spec fn spec_drag_scalar(cd: int, area: int, rho12: int, v: Vec3) -> int {
    spec_fx_mul_p12(spec_drag_coeff_p12(cd, area, rho12), spec_norm(v))
}

/// The drag force vector: minus half the drag scalar times the velocity.
pub open spec fn spec_drag_vec(cd: int, area: int, rho12: int, v: Vec3) -> Vec3 {
    let c3 = spec_drag_scalar(cd, area, rho12, v);
    Vec3 {
        x: (-spec_fx_half(spec_fx_mul(c3, v.x as int))) as i64,
        y: (-spec_fx_half(spec_fx_mul(c3, v.y as int))) as i64,
        z: (-spec_fx_half(spec_fx_mul(c3, v.z as int))) as i64,
    }
}

/// Machine-range conditions for the drag evaluation: the rescaled
/// factors must fit, which every physical combination of vehicle and
/// orbit does.
pub open spec fn can_drag(cd: int, area: int, rho12: int, v: Vec3) -> bool {
    &&& bounded(v, VEL_LIMIT as int)
    &&& fits_i64(spec_drag_coeff_p12(cd, area, rho12))
    &&& fits_i64(spec_drag_scalar(cd, area, rho12, v))
    &&& fits_i64(spec_fx_mul(spec_drag_scalar(cd, area, rho12, v), v.x as int))
    &&& fits_i64(spec_fx_mul(spec_drag_scalar(cd, area, rho12, v), v.y as int))
    &&& fits_i64(spec_fx_mul(spec_drag_scalar(cd, area, rho12, v), v.z as int))
}

/// The drag force on `spacecraft` at `position` moving at `velocity`.
pub fn drag_force<T: SpacecraftProperties>(
    spacecraft: &T,
    position: &Vec3,
    velocity: &Vec3,
) -> (r: Vec3)
    requires
        can_gravity(*position),
        can_drag(
            spacecraft.spec_drag_coefficient(),
            spacecraft.spec_reference_area(),
            spec_density(*position),
            *velocity,
        ),
    ensures
        r == spec_drag_vec(
            spacecraft.spec_drag_coefficient(),
            spacecraft.spec_reference_area(),
            spec_density(*position),
            *velocity,
        ),
{
    let env = Environment::new(position);
    let rho = env.density;
    let cd = spacecraft.drag_coefficient();
    let area = spacecraft.reference_area();
    proof {
        lemma_fx_mul_bound(
            cd as int,
            area as int,
            DRAG_COEFF_LIMIT as int,
            AREA_LIMIT as int,
            100_000_000_000_000_000_000int,
        );
        lemma_fx_mul_nonneg(cd as int, area as int);
    }
    let c1 = fx_mul(cd, area);
    proof {
        lemma_fx_mul_nonneg(c1 as int, rho as int);
    }
    let c2 = fx_mul(c1, rho);
    let vmag = velocity.norm();
    proof {
        assert(0 <= 2 * (c2 as int) * (vmag as int)) by (nonlinear_arith)
            requires
                0 <= c2 as int,
                0 <= vmag as int;
        vstd::arithmetic::div_mod::lemma_div_pos_is_pos(
            2 * (c2 as int) * (vmag as int) + 1_000_000_000_000,
            2_000_000_000_000int,
        );
    }
    let c3 = fx_mul_p12(c2, vmag);
    Vec3 {
        x: -fx_half(fx_mul(c3, velocity.x)),
        y: -fx_half(fx_mul(c3, velocity.y)),
        z: -fx_half(fx_mul(c3, velocity.z)),
    }
}

} // verus!
