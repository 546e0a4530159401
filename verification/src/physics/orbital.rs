//! Two-body orbital mechanics: apsis radii from the vis-viva and
//! angular-momentum relations, orbital period, and circular velocity.

use vstd::prelude::*;
use crate::constants::{MU_EARTH, TWO_PI_FX};
use crate::numerics::fxp::{
    div_floor, fx_mul, is_isqrt, isqrt, lemma_fx_mul_bound, lemma_sqrt_floor, spec_fx_mul,
    spec_sqrt_floor, SCALE,
};
use crate::numerics::vec3::{
    bounded, can_cross, spec_cross, spec_norm, spec_norm_sq, Vec3,
};
use crate::physics::drag::VEL_LIMIT;
use crate::physics::gravity::{MIN_RADIUS, POS_LIMIT};

verus! {

/// mu^2 / 10^9: the exact divisor that rescales the eccentricity formula
/// (carried in milli-units) to twelve fixed-point decimal places.
pub const MU_SQ_DIV: i128 = 158_873_347_167_926_416_000;

/// Largest semi-major axis the period accepts: 200,000 km, fixed point.
pub const SMA_LIMIT: i64 = 200_000_000_000_000;

/// Orbits must be bound at least this strongly: twice the specific energy
/// stays below -400,000 m^2/s^2 (carried in milli-units), which keeps the
/// semi-major axis below a million kilometres.
pub const TWOEPS_CEILING: i64 = -400_000_000;

pub struct OrbitalMechanics;

/// |v|^2 in milli SI units (a thousandth of m^2/s^2), rounded to nearest.
pub open spec fn spec_vsq_milli(v: Vec3) -> int {
    let t = 1_000_000_000int;
    (2 * spec_norm_sq(v) + t) / (2 * t)
}

/// Twice the specific orbital energy, v^2 - 2 mu / r, in milli SI units.
pub open spec fn spec_twoeps(r: Vec3, v: Vec3) -> int {
    let r_m = spec_norm(r) / (SCALE as int);
    spec_vsq_milli(v) - (2 * (2 * MU_EARTH * 1000) + r_m) / (2 * r_m)
}

/// The semi-major axis -mu / (2 eps) in metres, rounded to nearest.
pub open spec fn spec_sma_m(r: Vec3, v: Vec3) -> int {
    let ne = -spec_twoeps(r, v);
    (2 * (MU_EARTH * 1000) + ne) / (2 * ne)
}

/// |r x v|^2 in SI units, rounded down.
pub open spec fn spec_hsq_si(r: Vec3, v: Vec3) -> int {
    spec_norm_sq(spec_cross(r, v)) / 1_000_000_000_000
}

/// The squared eccentricity 1 + 2 eps h^2 / mu^2, carried with twelve
/// decimal places and clamped at zero against rounding.
pub open spec fn spec_ecc_sq_fx12(r: Vec3, v: Vec3) -> int {
    let n = MU_EARTH * MU_EARTH * 1000 + spec_twoeps(r, v) * spec_hsq_si(r, v);
    if n < 0 {
        0
    } else {
        n / (MU_SQ_DIV as int)
    }
}

/// The eccentricity in fixed point.
pub open spec fn spec_ecc_fx(r: Vec3, v: Vec3) -> int {
    spec_sqrt_floor(spec_ecc_sq_fx12(r, v))
}

/// Apogee radius a (1 + e), fixed point.
pub open spec fn spec_apogee(r: Vec3, v: Vec3) -> int {
    spec_sma_m(r, v) * (SCALE + spec_ecc_fx(r, v))
}

/// Perigee radius a (1 - e), fixed point.
pub open spec fn spec_perigee(r: Vec3, v: Vec3) -> int {
    spec_sma_m(r, v) * (SCALE - spec_ecc_fx(r, v))
}

/// States whose apsides this module computes: a position and velocity in
/// machine range on a clearly bound orbit.
pub open spec fn can_apsides(r: Vec3, v: Vec3) -> bool {
    &&& bounded(r, POS_LIMIT as int)
    &&& spec_norm(r) >= MIN_RADIUS
    &&& bounded(v, VEL_LIMIT as int)
    &&& can_cross(r, v)
    &&& bounded(spec_cross(r, v), 100_000_000_000_000_000int)
    &&& spec_twoeps(r, v) <= TWOEPS_CEILING
}

impl OrbitalMechanics {
    /// Apogee and perigee radii of the osculating orbit, fixed point.
    pub fn compute_apsides(r: &Vec3, v: &Vec3) -> (res: (i64, i64))
        requires
            can_apsides(*r, *v),
        ensures
            res.0 == spec_apogee(*r, *v),
            res.1 == spec_perigee(*r, *v),
            0 < res.0 <= 2_000_000_000_000_000,
            0 <= res.1 <= res.0,
    {
        let rm = r.norm();
        let vsq_raw = v.norm_sq();
        let t: i128 = 1_000_000_000;
        proof {
            assert(0 <= spec_norm_sq(*v) <= 30_000_000_000_000_000_000_000int)
                by (nonlinear_arith)
                requires
                    bounded(*v, VEL_LIMIT as int);
            crate::numerics::fxp::lemma_nearest_div_bound(
                spec_norm_sq(*v),
                1_000_000_000int,
                30_000_000_000_000int,
            );
        }
        let vsq128 = div_floor(2 * vsq_raw + t, 2 * t);
        let vsq = vsq128 as i64;
        let r_m = ((rm as u64) / 1_000_000) as i64;
        let pot128 = div_floor(
            2 * (2 * (MU_EARTH as i128) * 1000) + (r_m as i128),
            2 * (r_m as i128),
        );
        proof {
            lemma_pot_bound(pot128 as int, r_m as int);
        }
        let pot = pot128 as i64;
        proof {
            vstd::arithmetic::div_mod::lemma_div_pos_is_pos(
                2 * spec_norm_sq(*v) + 1_000_000_000,
                2_000_000_000int,
            );
        }
        let twoeps = vsq - pot;
        let ne = -twoeps;
        proof {
            assert(400_000_000 <= ne <= 820_000_000_000);
            lemma_sma_bound(ne as int);
        }
        let sma = div_floor(
            2 * ((MU_EARTH as i128) * 1000) + (ne as i128),
            2 * (ne as i128),
        ) as i64;
        let h = r.cross(v);
        let hsq_raw = h.norm_sq();
        proof {
            assert(0 <= spec_norm_sq(h) <= 30_000_000_000_000_000_000_000_000_000_000_000int)
                by (nonlinear_arith)
                requires
                    bounded(h, 100_000_000_000_000_000int);
        }
        let hsq = div_floor(hsq_raw, 1_000_000_000_000);
        proof {
            lemma_hsq_bound(hsq as int, hsq_raw as int);
            assert(-25_000_000_000_000_000_000_000_000_000_000_000int <= (twoeps as int) * (
            hsq as int) <= 0) by (nonlinear_arith)
                requires
                    -820_000_000_000int <= (twoeps as int) < 0,
                    0 <= (hsq as int) <= 30_000_000_000_000_000_000_000int;
        }
        let n: i128 = (MU_EARTH as i128) * (MU_EARTH as i128) * 1000 + (twoeps as i128) * hsq;
        let e2 = if n < 0 {
            0i128
        } else {
            div_floor(n, MU_SQ_DIV)
        };
        proof {
            lemma_e2_bound(e2 as int, n as int);
        }
        let eu = isqrt(e2 as u128);
        proof {
            assert(eu <= 1_000_000u64) by (nonlinear_arith)
                requires
                    is_isqrt(e2 as int, eu as int),
                    0 <= (e2 as int) <= 1_000_000_000_000int;
        }
        let e = eu as i64;
        proof {
            lemma_sqrt_floor(spec_ecc_sq_fx12(*r, *v), e as int);
            assert(0 < (sma as int) * (SCALE + e) <= 2_000_000_000_000_000int
                && 0 <= (sma as int) * (SCALE - e) <= (sma as int) * (SCALE + e))
                by (nonlinear_arith)
                requires
                    0 < (sma as int) <= 996_473_000int,
                    0 <= (e as int) <= 1_000_000int,
                    SCALE == 1_000_000i64;
        }
        let ra = sma * (SCALE + e);
        let rp = sma * (SCALE - e);
        (ra, rp)
    }

    /// Whether the vehicle currently stands within `tolerance` of its
    /// apogee or its perigee.
    pub fn is_near_apsis(r: &Vec3, v: &Vec3, tolerance: i64) -> (res: (bool, bool))
        requires
            can_apsides(*r, *v),
            0 <= tolerance,
        ensures
            res.0 == (-(tolerance as int) < spec_norm(*r) - spec_apogee(*r, *v)
                < tolerance as int),
            res.1 == (-(tolerance as int) < spec_norm(*r) - spec_perigee(*r, *v)
                < tolerance as int),
    {
        let (ra, rp) = Self::compute_apsides(r, v);
        let rm = r.norm();
        let at_apogee = rm - ra < tolerance && ra - rm < tolerance;
        let at_perigee = rm - rp < tolerance && rp - rm < tolerance;
        (at_apogee, at_perigee)
    }

    /// The orbital period 2 pi sqrt(a^3 / mu) of a semi-major axis, fixed
    /// point.
    pub fn compute_orbital_period(a: i64) -> (p: i64)
        requires
            SCALE <= a <= SMA_LIMIT,
        ensures
            p == spec_fx_mul(
                TWO_PI_FX as int,
                spec_sqrt_floor(
                    (((a as int) / (SCALE as int)) * ((a as int) / (SCALE as int)) * ((a as int) / (SCALE as int)))
                        * 1_000_000_000_000 / (MU_EARTH as int),
                ),
            ),
    {
        let a_m = ((a as u64) / 1_000_000) as i64;
        proof {
            assert(1 <= a_m <= 200_000_000);
            assert(1 <= (a_m as i128) * (a_m as i128) <= 40_000_000_000_000_000i128)
                by (nonlinear_arith)
                requires
                    1 <= a_m as i128 <= 200_000_000i128;
            assert(1 <= (a_m as i128) * (a_m as i128) * (a_m as i128)
                <= 8_000_000_000_000_000_000_000_000i128) by (nonlinear_arith)
                requires
                    1 <= a_m as i128 <= 200_000_000i128,
                    1 <= (a_m as i128) * (a_m as i128) <= 40_000_000_000_000_000i128;
        }
        let a3: i128 = (a_m as i128) * (a_m as i128) * (a_m as i128);
        let q = div_floor(a3 * 1_000_000_000_000, MU_EARTH as i128);
        proof {
            lemma_period_q_bound(q as int, a3 as int);
        }
        let su = isqrt(q as u128);
        proof {
            assert(su <= 143_000_000_000u64) by (nonlinear_arith)
                requires
                    is_isqrt(q as int, su as int),
                    0 <= q <= 20_071_000_000_000_000_000_000i128;
        }
        let s = su as i64;
        proof {
            lemma_sqrt_floor(
                (((a as int) / (SCALE as int)) * ((a as int) / (SCALE as int)) * ((a as int)
                    / (SCALE as int))) * 1_000_000_000_000 / (MU_EARTH as int),
                s as int,
            );
            lemma_fx_mul_bound(
                TWO_PI_FX as int,
                s as int,
                6_283_185int,
                143_000_000_000int,
                898_495_455_000_000_000int,
            );
        }
        fx_mul(TWO_PI_FX, s)
    }

    /// The speed of a circular orbit at radius `r`, fixed point.
    pub fn compute_circular_velocity(r: i64) -> (v: i64)
        requires
            MIN_RADIUS <= r,
        ensures
            v == spec_sqrt_floor((MU_EARTH as int) * 1_000_000_000_000 / ((r as int) / (SCALE as int))),
    {
        let r_m = ((r as u64) / 1_000_000) as i64;
        proof {
            assert(r_m >= 1_000_000);
        }
        let q = div_floor((MU_EARTH as i128) * 1_000_000_000_000, r_m as i128);
        proof {
            lemma_circ_q_bound(q as int, r_m as int);
        }
        let su = isqrt(q as u128);
        proof {
            assert(su <= 20_000_000_000u64) by (nonlinear_arith)
                requires
                    is_isqrt(q as int, su as int),
                    0 <= q <= 398_589_196_000_000_000_000i128;
        }
        let s = su as i64;
        proof {
            lemma_sqrt_floor((MU_EARTH as int) * 1_000_000_000_000 / ((r as int) / (SCALE as int)), s as int);
        }
        s
    }
}

/// 2 mu / r at valid radii lies between 1 and twice mu.
proof fn lemma_pot_bound(pot: int, r_m: int)
    requires
        1_000_000 <= r_m,
        pot == (2 * (2 * MU_EARTH * 1000) + r_m) / (2 * r_m),
    ensures
        0 <= pot <= 820_000_000_000int,
{
    assert((2 * MU_EARTH * 1000) <= 797_178_392_000int * r_m) by (nonlinear_arith)
        requires
            1_000_000 <= r_m;
    assert(-(797_178_392_000int) * r_m <= 2 * MU_EARTH * 1000) by (nonlinear_arith)
        requires
            1_000_000 <= r_m;
    crate::numerics::fxp::lemma_nearest_div_bound(2 * MU_EARTH * 1000, r_m, 797_178_392_000int);
    vstd::arithmetic::div_mod::lemma_div_pos_is_pos(2 * (2 * MU_EARTH * 1000) + r_m, 2 * r_m);
}

/// The semi-major axis of a clearly bound orbit is below a million
/// kilometres.
proof fn lemma_sma_bound(ne: int)
    requires
        400_000_000 <= ne <= 820_000_000_000,
    ensures
        0 < (2 * (MU_EARTH * 1000) + ne) / (2 * ne) <= 996_473_000int,
{
    vstd::arithmetic::div_mod::lemma_div_pos_is_pos(2 * (MU_EARTH * 1000) + ne, 2 * ne);
    vstd::arithmetic::div_mod::lemma_fundamental_div_mod(2 * (MU_EARTH * 1000) + ne, 2 * ne);
    vstd::arithmetic::div_mod::lemma_mod_bound(2 * (MU_EARTH * 1000) + ne, 2 * ne);
    let q = (2 * (MU_EARTH * 1000) + ne) / (2 * ne);
    assert(0 < q && q <= 996_473_000int) by (nonlinear_arith)
        requires
            400_000_000 <= ne <= 820_000_000_000,
            2 * (MU_EARTH * 1000) + ne == 2 * ne * q + (2 * (MU_EARTH * 1000) + ne) % (2 * ne),
            0 <= (2 * (MU_EARTH * 1000) + ne) % (2 * ne) < 2 * ne,
            0 <= q,
            MU_EARTH == 398_589_196_000_000i64;
}

/// The rescaled squared angular momentum stays in range.
proof fn lemma_hsq_bound(hsq: int, hsq_raw: int)
    requires
        0 <= hsq_raw <= 30_000_000_000_000_000_000_000_000_000_000_000int,
        hsq == hsq_raw / 1_000_000_000_000,
    ensures
        0 <= hsq <= 30_000_000_000_000_000_000_000int,
{
    vstd::arithmetic::div_mod::lemma_div_pos_is_pos(hsq_raw, 1_000_000_000_000);
    vstd::arithmetic::div_mod::lemma_fundamental_div_mod(hsq_raw, 1_000_000_000_000);
    vstd::arithmetic::div_mod::lemma_mod_bound(hsq_raw, 1_000_000_000_000);
    assert(hsq <= 30_000_000_000_000_000_000_000int) by (nonlinear_arith)
        requires
            hsq_raw == 1_000_000_000_000 * hsq + hsq_raw % 1_000_000_000_000,
            0 <= hsq_raw % 1_000_000_000_000,
            hsq_raw <= 30_000_000_000_000_000_000_000_000_000_000_000int,
            0 <= hsq;
}

/// The clamped squared eccentricity of a bound orbit is at most one (to
/// twelve decimal places).
proof fn lemma_e2_bound(e2: int, n: int)
    requires
        n <= MU_EARTH * MU_EARTH * 1000,
        n >= 0 ==> e2 == n / (MU_SQ_DIV as int),
        n < 0 ==> e2 == 0,
    ensures
        0 <= e2 <= 1_000_000_000_000int,
{
    if n >= 0 {
        vstd::arithmetic::div_mod::lemma_div_pos_is_pos(n, MU_SQ_DIV as int);
        vstd::arithmetic::div_mod::lemma_fundamental_div_mod(n, MU_SQ_DIV as int);
        vstd::arithmetic::div_mod::lemma_mod_bound(n, MU_SQ_DIV as int);
        assert(e2 <= 1_000_000_000_000int) by (nonlinear_arith)
            requires
                n == (MU_SQ_DIV as int) * e2 + n % (MU_SQ_DIV as int),
                0 <= n % (MU_SQ_DIV as int),
                0 <= n <= MU_EARTH * MU_EARTH * 1000,
                0 <= e2,
                MU_SQ_DIV == 158_873_347_167_926_416_000i128,
                MU_EARTH == 398_589_196_000_000i64;
    }
}

/// The squared scaled period stays in range.
proof fn lemma_period_q_bound(q: int, a3: int)
    requires
        0 <= a3 <= 8_000_000_000_000_000_000_000_000int,
        q == a3 * 1_000_000_000_000 / (MU_EARTH as int),
    ensures
        0 <= q <= 20_071_000_000_000_000_000_000int,
{
    assert(0 <= a3 * 1_000_000_000_000int
        <= 8_000_000_000_000_000_000_000_000_000_000_000_000int) by (nonlinear_arith)
        requires
            0 <= a3 <= 8_000_000_000_000_000_000_000_000int;
    vstd::arithmetic::div_mod::lemma_div_pos_is_pos(a3 * 1_000_000_000_000, MU_EARTH as int);
    vstd::arithmetic::div_mod::lemma_fundamental_div_mod(a3 * 1_000_000_000_000, MU_EARTH as int);
    vstd::arithmetic::div_mod::lemma_mod_bound(a3 * 1_000_000_000_000, MU_EARTH as int);
    assert(q <= 20_071_000_000_000_000_000_000int) by (nonlinear_arith)
        requires
            a3 * 1_000_000_000_000 == MU_EARTH * q + (a3 * 1_000_000_000_000) % (
            MU_EARTH as int),
            0 <= (a3 * 1_000_000_000_000) % (MU_EARTH as int),
            a3 * 1_000_000_000_000 <= 8_000_000_000_000_000_000_000_000_000_000_000_000int,
            0 <= q,
            MU_EARTH == 398_589_196_000_000i64;
}

/// The squared circular speed stays in range.
proof fn lemma_circ_q_bound(q: int, r_m: int)
    requires
        1_000_000 <= r_m,
        q == (MU_EARTH as int) * 1_000_000_000_000 / r_m,
    ensures
        0 <= q <= 398_589_196_000_000_000_000int,
{
    vstd::arithmetic::div_mod::lemma_div_pos_is_pos(MU_EARTH * 1_000_000_000_000, r_m);
    vstd::arithmetic::div_mod::lemma_fundamental_div_mod(MU_EARTH * 1_000_000_000_000, r_m);
    vstd::arithmetic::div_mod::lemma_mod_bound(MU_EARTH * 1_000_000_000_000, r_m);
    assert(q <= 398_589_196_000_000_000_000int) by (nonlinear_arith)
        requires
            MU_EARTH * 1_000_000_000_000 == r_m * q + MU_EARTH * 1_000_000_000_000 % r_m,
            0 <= MU_EARTH * 1_000_000_000_000 % r_m,
            1_000_000 <= r_m,
            0 <= q,
            MU_EARTH == 398_589_196_000_000i64;
}

} // verus!
