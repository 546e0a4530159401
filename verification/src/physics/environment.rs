//! The environment a vehicle flies through: an exponential atmosphere, a
//! simplified dipole magnetic field, and the solar constant.
//!
//! The density follows rho0 * exp(-altitude / H).  Six decimal places are
//! far too coarse for orbital densities, so the density and the
//! exponential are carried with twelve decimal places (`SCALE_P12`); at
//! that resolution the drag band up to about 150 km keeps a few parts per
//! million of accuracy.  Two representation limits are deliberate and the
//! contracts state them exactly: above roughly 200 km the density rounds
//! to zero, and below the reference sphere it is clamped to the sea-level
//! value (the pure exponential would grow beyond fixed-point range).
//!
//! The exponential itself is evaluated as an integer power of e^-1 for
//! the whole part, and for the fractional part a cubic Taylor expansion
//! of a sixteenth of it, squared four times; the result always lies in
//! the unit interval.

use vstd::prelude::*;
use crate::constants::R_EARTH_FX;
use crate::numerics::fxp::{
    fx_half, fx_mul_p12, lemma_fx_mul_p12_bound, lemma_fx_mul_p12_unit, div_floor,
    spec_fx_half, spec_fx_mul_p12, SCALE, SCALE_P12,
};
use crate::numerics::vec3::{bounded, spec_norm, Vec3};
use crate::physics::gravity::{can_gravity, POS_LIMIT};

verus! {

/// Sea-level atmospheric density: 1.225 kg/m^3, twelve decimal places.
pub const RHO_0: i64 = 1_225_000_000_000;

/// Scale height of the exponential atmosphere: 7200 m (a plain integer,
/// dividing a fixed-point altitude leaves a fixed-point ratio).
pub const SCALE_HEIGHT: i64 = 7200;

/// e^-1 with twelve decimal places.
pub const E_INV: i64 = 367_879_441_171;

/// Arguments at or above this make the exponential round to zero even at
/// twelve decimal places (forty-one whole units).
pub const EXP_UNDERFLOW: i64 = 41_000_000;

/// Magnetic dipole strength over 4 pi: vacuum permeability times the
/// dipole moment over 4 pi, prescaled to fixed point (7.94e15 * 1e6).
pub const DIPOLE_NUM: i128 = 7_940_000_000_000_000_000_000;

/// Solar constant at one astronomical unit: 1361 W/m^2, fixed point.
pub const SOLAR_FLUX: i64 = 1_361_000_000;

/// e^-n for a whole number n, by repeated twelve-place multiplication.
pub open spec fn spec_einv_pow(n: nat) -> int
    decreases n,
{
    if n == 0 {
        SCALE_P12 as int
    } else {
        spec_fx_mul_p12(spec_einv_pow((n - 1) as nat), E_INV as int)
    }
}

/// Clamping to the twelve-place unit interval [0, SCALE_P12].
pub open spec fn spec_clamp_unit(t: int) -> int {
    if t > SCALE_P12 {
        SCALE_P12 as int
    } else if t < 0 {
        0
    } else {
        t
    }
}

/// Cubic Taylor expansion of e^-g around zero for a twelve-place g,
/// rounded term by term.
pub open spec fn spec_exp_taylor(g12: int) -> int {
    SCALE_P12 - g12 + spec_fx_half(spec_fx_mul_p12(g12, g12)) - spec_fx_mul_p12(
        spec_fx_mul_p12(g12, g12),
        g12,
    ) / 6
}

/// e^-f for a six-place f in [0, SCALE): the Taylor value of f/16
/// (widened to twelve places), squared four times.
pub open spec fn spec_exp_frac(f: int) -> int {
    let t = spec_clamp_unit(spec_exp_taylor((f / 16) * 1_000_000));
    let s1 = spec_fx_mul_p12(t, t);
    let s2 = spec_fx_mul_p12(s1, s1);
    let s3 = spec_fx_mul_p12(s2, s2);
    spec_fx_mul_p12(s3, s3)
}

/// e^-x for a nonnegative six-place x, with twelve decimal places.
pub open spec fn spec_exp_neg(x: int) -> int {
    if x >= EXP_UNDERFLOW {
        0
    } else {
        spec_fx_mul_p12(
            spec_einv_pow((x / (SCALE as int)) as nat),
            spec_exp_frac(x % (SCALE as int)),
        )
    }
}

/// e^-x with twelve decimal places, for a nonnegative six-place x; always
/// within the unit interval.
pub fn exp_neg(x: i64) -> (r: i64)
    requires
        0 <= x,
    ensures
        r == spec_exp_neg(x as int),
        0 <= r <= SCALE_P12,
{
    if x >= EXP_UNDERFLOW {
        return 0;
    }
    let n = ((x as u64) / 1_000_000) as i64;
    let f = ((x as u64) % 1_000_000) as i64;
    let g12 = (((f as u64) / 16) as i64) * 1_000_000;
    proof {
        assert(0 <= g12 < 62_500_000_000);
        lemma_fx_mul_p12_bound(
            g12 as int,
            g12 as int,
            62_500_000_000int,
            62_500_000_000int,
            3_906_250_000_000_000_000_000int,
        );
    }
    let gg = fx_mul_p12(g12, g12);
    proof {
        lemma_fx_mul_p12_bound(
            gg as int,
            g12 as int,
            3_906_250_001int,
            62_500_000_000int,
            244_140_625_062_500_000_000int,
        );
    }
    let ggg = fx_mul_p12(gg, g12);
    let t0 = SCALE_P12 - g12 + fx_half(gg) - (div_floor(ggg as i128, 6) as i64);
    let t = if t0 > SCALE_P12 {
        SCALE_P12
    } else if t0 < 0 {
        0
    } else {
        t0
    };
    proof {
        lemma_fx_mul_p12_unit(t as int, t as int);
    }
    let s1 = fx_mul_p12(t, t);
    proof {
        lemma_fx_mul_p12_unit(s1 as int, s1 as int);
    }
    let s2 = fx_mul_p12(s1, s1);
    proof {
        lemma_fx_mul_p12_unit(s2 as int, s2 as int);
    }
    let s3 = fx_mul_p12(s2, s2);
    proof {
        lemma_fx_mul_p12_unit(s3 as int, s3 as int);
    }
    let s4 = fx_mul_p12(s3, s3);
    let mut en: i64 = SCALE_P12;
    let mut i: i64 = 0;
    while i < n
        invariant
            0 <= i <= n,
            n < 41,
            en == spec_einv_pow(i as nat),
            0 <= en <= SCALE_P12,
        decreases n - i,
    {
        proof {
            lemma_fx_mul_p12_unit(en as int, E_INV as int);
        }
        en = fx_mul_p12(en, E_INV);
        i = i + 1;
        proof {
            assert(spec_einv_pow(i as nat) == spec_fx_mul_p12(
                spec_einv_pow((i - 1) as nat),
                E_INV as int,
            ));
        }
    }
    proof {
        lemma_fx_mul_p12_unit(en as int, s4 as int);
    }
    fx_mul_p12(en, s4)
}

pub struct Environment {
    /// Height above the mean Earth radius, fixed-point metres (may be
    /// negative below the reference sphere).
    pub altitude: i64,
    /// Atmospheric density, kg/m^3 with twelve decimal places.
    pub density: i64,
    /// Dipole magnetic field at the position, fixed-point tesla.
    pub magnetic_field: Vec3,
    /// Solar flux, fixed-point W/m^2.
    pub solar_flux: i64,
}

pub open spec fn spec_altitude(p: Vec3) -> int {
    spec_norm(p) - R_EARTH_FX
}

/// Density of the exponential atmosphere, twelve decimal places; clamped
/// to the sea-level value at and below the reference sphere.
pub open spec fn spec_density(p: Vec3) -> int {
    let alt = spec_altitude(p);
    if alt <= 0 {
        RHO_0 as int
    } else {
        spec_fx_mul_p12(RHO_0 as int, spec_exp_neg(alt / (SCALE_HEIGHT as int)))
    }
}

/// Twice the polar dipole field strength at the position's radius.
pub open spec fn spec_dipole_bz(p: Vec3) -> int {
    let r_m = spec_norm(p) / (SCALE as int);
    2 * ((DIPOLE_NUM as int) / (r_m * r_m * r_m))
}

impl Environment {
    /// Samples the environment at a position outside the minimum radius.
    pub fn new(position: &Vec3) -> (r: Environment)
        requires
            can_gravity(*position),
        ensures
            r.altitude == spec_altitude(*position),
            r.density == spec_density(*position),
            0 <= r.density <= RHO_0,
            r.magnetic_field == (Vec3 { x: 0i64, y: 0i64, z: spec_dipole_bz(*position) as i64 }),
            r.solar_flux == SOLAR_FLUX,
    {
        let rm = position.norm();
        let altitude = rm - R_EARTH_FX;
        let density = if altitude <= 0 {
            RHO_0
        } else {
            let u = ((altitude as u64) / (SCALE_HEIGHT as u64)) as i64;
            let e = exp_neg(u);
            proof {
                lemma_rho_scale(e as int);
            }
            fx_mul_p12(RHO_0, e)
        };
        let r_m = ((rm as u64) / 1_000_000) as i64;
        proof {
            assert(crate::numerics::vec3::spec_norm_sq(*position)
                <= 3_000_000_000_000_000_000_000_000_000_000int) by (nonlinear_arith)
                requires
                    bounded(*position, POS_LIMIT as int);
            assert(rm <= 1_800_000_000_000_000i64) by (nonlinear_arith)
                requires
                    crate::numerics::fxp::is_isqrt(
                        crate::numerics::vec3::spec_norm_sq(*position),
                        rm as int,
                    ),
                    crate::numerics::vec3::spec_norm_sq(*position)
                        <= 3_000_000_000_000_000_000_000_000_000_000int;
            assert(1_000_000 <= r_m <= 1_800_000_000);
            assert(1_000_000_000_000i128 <= (r_m as i128) * (r_m as i128)
                <= 3_240_000_000_000_000_000i128) by (nonlinear_arith)
                requires
                    1_000_000 <= r_m as i128 <= 1_800_000_000i128;
            assert(1_000_000_000_000_000_000i128 <= (r_m as i128) * (r_m as i128) * (r_m as i128)
                <= 6_000_000_000_000_000_000_000_000_000i128) by (nonlinear_arith)
                requires
                    1_000_000 <= r_m as i128 <= 1_800_000_000i128,
                    1_000_000_000_000i128 <= (r_m as i128) * (r_m as i128)
                        <= 3_240_000_000_000_000_000i128;
            lemma_dipole_bound(r_m as int);
        }
        let den: i128 = (r_m as i128) * (r_m as i128) * (r_m as i128);
        let b0 = div_floor(DIPOLE_NUM, den) as i64;
        Environment {
            altitude,
            density,
            magnetic_field: Vec3 { x: 0, y: 0, z: 2 * b0 },
            solar_flux: SOLAR_FLUX,
        }
    }
}

/// Scaling the sea-level density by a unit-interval factor keeps it
/// between zero and itself.
proof fn lemma_rho_scale(e: int)
    requires
        0 <= e <= SCALE_P12,
    ensures
        0 <= spec_fx_mul_p12(RHO_0 as int, e) <= RHO_0,
{
    let s = SCALE_P12 as int;
    assert(0 <= 2 * (RHO_0 as int) * e) by (nonlinear_arith)
        requires
            0 <= e;
    vstd::arithmetic::div_mod::lemma_div_pos_is_pos(2 * (RHO_0 as int) * e + s, 2 * s);
    assert(2 * (RHO_0 as int) * e + s <= (RHO_0 as int) * (2 * s) + s) by (nonlinear_arith)
        requires
            0 <= e <= s;
    assert((RHO_0 as int) * (2 * s) + s == (2 * s) * (RHO_0 as int) + s) by (nonlinear_arith);
    vstd::arithmetic::div_mod::lemma_fundamental_div_mod_converse_div(
        (RHO_0 as int) * (2 * s) + s,
        2 * s,
        RHO_0 as int,
        s,
    );
    vstd::arithmetic::div_mod::lemma_div_is_ordered(
        2 * (RHO_0 as int) * e + s,
        (RHO_0 as int) * (2 * s) + s,
        2 * s,
    );
}

/// The dipole quotient at megametre radii is small and nonnegative.
proof fn lemma_dipole_bound(r_m: int)
    requires
        1_000_000 <= r_m,
    ensures
        0 <= (DIPOLE_NUM as int) / (r_m * r_m * r_m) <= 7_940,
{
    let den = r_m * r_m * r_m;
    assert(r_m * r_m >= 1_000_000_000_000) by (nonlinear_arith)
        requires
            r_m >= 1_000_000;
    assert(r_m * r_m * r_m >= 1_000_000_000_000_000_000) by (nonlinear_arith)
        requires
            r_m >= 1_000_000,
            r_m * r_m >= 1_000_000_000_000;
    vstd::arithmetic::div_mod::lemma_div_pos_is_pos(DIPOLE_NUM as int, den);
    vstd::arithmetic::div_mod::lemma_fundamental_div_mod(DIPOLE_NUM as int, den);
    vstd::arithmetic::div_mod::lemma_mod_bound(DIPOLE_NUM as int, den);
    assert((DIPOLE_NUM as int) / den <= 7_940) by (nonlinear_arith)
        requires
            den >= 1_000_000_000_000_000_000,
            DIPOLE_NUM as int == den * ((DIPOLE_NUM as int) / den) + (DIPOLE_NUM as int) % den,
            0 <= (DIPOLE_NUM as int) % den,
            (DIPOLE_NUM as int) / den >= 0;
}

} // verus!
