//! Two-body point-mass gravity.

use vstd::prelude::*;
use crate::constants::MU_EARTH;
use crate::numerics::fxp::{div_floor, is_isqrt, lemma_nearest_div_bound};
use crate::numerics::vec3::{bounded, spec_norm, spec_norm_sq, Vec3};

verus! {

/// Largest position component the gravity model accepts: a million
/// kilometres from the centre, fixed point.
pub const POS_LIMIT: i64 = 1_000_000_000_000_000;

/// Smallest radius the gravity model accepts: a thousand kilometres from
/// the centre, fixed point.  Nearer the centre the acceleration would not
/// be representable; callers keep trajectories outside this ball.
pub const MIN_RADIUS: i64 = 1_000_000_000_000;

/// Acceleration magnitude never exceeds this bound under the preconditions
/// (about 400 m/s^2, fixed point).
pub const GRAVITY_ACCEL_LIMIT: i64 = 400_000_000;

pub open spec fn can_gravity(p: Vec3) -> bool {
    &&& bounded(p, POS_LIMIT as int)
    &&& spec_norm(p) >= MIN_RADIUS
}

/// The scale factor mu / r^2 in raw units, computed over the radius in
/// millimetres and rounded down.
pub open spec fn spec_gravity_g1(p: Vec3) -> int {
    let r_mm = spec_norm(p) / 1000;
    MU_EARTH * 1_000_000_000_000 / (r_mm * r_mm)
}

/// The acceleration -(mu / r^2) * (p / r), each component rounded to
/// nearest at the final division by the radius.
pub open spec fn spec_gravity_accel(p: Vec3) -> Vec3 {
    let r = spec_norm(p);
    let g1 = spec_gravity_g1(p);
    Vec3 {
        x: (-((2 * (g1 * p.x) + r) / (2 * r))) as i64,
        y: (-((2 * (g1 * p.y) + r) / (2 * r))) as i64,
        z: (-((2 * (g1 * p.z) + r) / (2 * r))) as i64,
    }
}

/// Acceleration of two-body gravity at `position`, pointing at the centre.
pub fn gravity_acceleration(position: &Vec3) -> (r: Vec3)
    requires
        can_gravity(*position),
    ensures
        r == spec_gravity_accel(*position),
        bounded(r, GRAVITY_ACCEL_LIMIT as int),
{
    let rm = position.norm();
    proof {
        assert(spec_norm_sq(*position) <= 3_000_000_000_000_000_000_000_000_000_000int)
            by (nonlinear_arith)
            requires
                bounded(*position, POS_LIMIT as int);
        assert(rm <= 1_800_000_000_000_000i64) by (nonlinear_arith)
            requires
                is_isqrt(spec_norm_sq(*position), rm as int),
                spec_norm_sq(*position) <= 3_000_000_000_000_000_000_000_000_000_000int;
    }
    let r_mm = ((rm as u64) / 1000) as i64;
    proof {
        assert(1_000_000_000 <= r_mm <= 1_800_000_000_000);
        assert(1_000_000_000_000_000_000i128 <= r_mm * r_mm
            <= 4_000_000_000_000_000_000_000_000i128) by (nonlinear_arith)
            requires
                1_000_000_000 <= r_mm <= 1_800_000_000_000;
    }
    let den: i128 = (r_mm as i128) * (r_mm as i128);
    let g1 = div_floor((MU_EARTH as i128) * 1_000_000_000_000, den);
    proof {
        lemma_g1_bound(g1 as int, den as int);
        crate::numerics::vec3::lemma_comp_within_norm(*position, rm as int);
        lemma_gcomp(g1 as int, position.x as int, rm as int);
        lemma_gcomp(g1 as int, position.y as int, rm as int);
        lemma_gcomp(g1 as int, position.z as int, rm as int);
    }
    let ax = div_floor(2 * (g1 * (position.x as i128)) + (rm as i128), 2 * (rm as i128));
    let ay = div_floor(2 * (g1 * (position.y as i128)) + (rm as i128), 2 * (rm as i128));
    let az = div_floor(2 * (g1 * (position.z as i128)) + (rm as i128), 2 * (rm as i128));
    Vec3 { x: -(ax as i64), y: -(ay as i64), z: -(az as i64) }
}

/// A quotient of mu by a squared megametre-scale radius is small.
proof fn lemma_g1_bound(g1: int, den: int)
    requires
        den >= 1_000_000_000_000_000_000,
        g1 == MU_EARTH * 1_000_000_000_000 / den,
    ensures
        0 <= g1 <= GRAVITY_ACCEL_LIMIT - 1,
{
    vstd::arithmetic::div_mod::lemma_div_pos_is_pos(MU_EARTH * 1_000_000_000_000, den);
    vstd::arithmetic::div_mod::lemma_fundamental_div_mod(MU_EARTH * 1_000_000_000_000, den);
    vstd::arithmetic::div_mod::lemma_mod_bound(MU_EARTH * 1_000_000_000_000, den);
    assert(g1 <= 399_999_999) by (nonlinear_arith)
        requires
            den >= 1_000_000_000_000_000_000,
            MU_EARTH * 1_000_000_000_000 == den * g1 + MU_EARTH * 1_000_000_000_000 % den,
            0 <= MU_EARTH * 1_000_000_000_000 % den,
            g1 >= 0;
}

/// Each rounded component of the scaled direction stays within the
/// acceleration bound, and the intermediate products stay far inside
/// machine range.
proof fn lemma_gcomp(g1: int, p: int, r: int)
    requires
        0 <= g1 <= GRAVITY_ACCEL_LIMIT - 1,
        0 < r <= 1_800_000_000_000_000,
        -r <= p <= r,
    ensures
        -(GRAVITY_ACCEL_LIMIT - 1) <= (2 * (g1 * p) + r) / (2 * r) <= GRAVITY_ACCEL_LIMIT - 1,
        -720_000_000_000_000_000_000_000int <= g1 * p <= 720_000_000_000_000_000_000_000int,
{
    assert(-(g1 * r) <= g1 * p <= g1 * r && g1 * r <= 720_000_000_000_000_000_000_000int)
        by (nonlinear_arith)
        requires
            0 <= g1 <= GRAVITY_ACCEL_LIMIT - 1,
            0 < r <= 1_800_000_000_000_000,
            -r <= p <= r;
    assert((-g1) * r == -(g1 * r)) by (nonlinear_arith);
    lemma_nearest_div_bound(g1 * p, r, g1);
}

} // verus!
