//! 3-vectors of fixed-point scalars, with exact integer contracts.

use vstd::prelude::*;
use crate::numerics::fxp::{
    div_floor, fits_i64, fx_mul, is_isqrt, isqrt, lemma_sqrt_floor, spec_fx_mul,
    spec_sqrt_floor, SCALE,
};

verus! {

/// Largest component magnitude the vector operations accept; wide enough for
/// any quantity of this library (raw micro-units), tight enough that squared
/// norms fit an `i128`.
pub const COMP_LIMIT: i64 = 4_000_000_000_000_000_000;

#[derive(Clone, Copy, Debug, PartialEq, Eq, Structural)]
pub struct Vec3 {
    pub x: i64,
    pub y: i64,
    pub z: i64,
}

pub open spec fn bounded(v: Vec3, b: int) -> bool {
    &&& -b <= v.x <= b
    &&& -b <= v.y <= b
    &&& -b <= v.z <= b
}

pub open spec fn can_vadd(a: Vec3, b: Vec3) -> bool {
    &&& fits_i64(a.x + b.x)
    &&& fits_i64(a.y + b.y)
    &&& fits_i64(a.z + b.z)
}

pub open spec fn spec_vadd(a: Vec3, b: Vec3) -> Vec3 {
    Vec3 { x: (a.x + b.x) as i64, y: (a.y + b.y) as i64, z: (a.z + b.z) as i64 }
}

pub open spec fn can_vsub(a: Vec3, b: Vec3) -> bool {
    &&& fits_i64(a.x - b.x)
    &&& fits_i64(a.y - b.y)
    &&& fits_i64(a.z - b.z)
}

pub open spec fn spec_vsub(a: Vec3, b: Vec3) -> Vec3 {
    Vec3 { x: (a.x - b.x) as i64, y: (a.y - b.y) as i64, z: (a.z - b.z) as i64 }
}

pub open spec fn can_vscale(a: Vec3, k: int) -> bool {
    &&& i64::MIN < k <= i64::MAX
    &&& a.x > i64::MIN && a.y > i64::MIN && a.z > i64::MIN
    &&& fits_i64(spec_fx_mul(a.x as int, k))
    &&& fits_i64(spec_fx_mul(a.y as int, k))
    &&& fits_i64(spec_fx_mul(a.z as int, k))
}

pub open spec fn spec_vscale(a: Vec3, k: int) -> Vec3 {
    Vec3 {
        x: spec_fx_mul(a.x as int, k) as i64,
        y: spec_fx_mul(a.y as int, k) as i64,
        z: spec_fx_mul(a.z as int, k) as i64,
    }
}

/// Sum of squared components, in raw units squared (exact).
pub open spec fn spec_norm_sq(a: Vec3) -> int {
    a.x * a.x + a.y * a.y + a.z * a.z
}

/// Euclidean norm in raw units, rounded down to an integer.
pub open spec fn spec_norm(a: Vec3) -> int {
    spec_sqrt_floor(spec_norm_sq(a))
}

/// Dot product rescaled to fixed point, rounded to nearest.
pub open spec fn spec_dot(a: Vec3, b: Vec3) -> int {
    (2 * (a.x * b.x + a.y * b.y + a.z * b.z) + SCALE) / (2 * SCALE)
}

pub open spec fn can_cross(a: Vec3, b: Vec3) -> bool {
    &&& bounded(a, COMP_LIMIT as int)
    &&& bounded(b, COMP_LIMIT as int)
    &&& fits_i64(spec_fx_mul(a.y as int, b.z as int))
    &&& fits_i64(spec_fx_mul(a.z as int, b.y as int))
    &&& fits_i64(spec_fx_mul(a.z as int, b.x as int))
    &&& fits_i64(spec_fx_mul(a.x as int, b.z as int))
    &&& fits_i64(spec_fx_mul(a.x as int, b.y as int))
    &&& fits_i64(spec_fx_mul(a.y as int, b.x as int))
    &&& fits_i64(spec_fx_mul(a.y as int, b.z as int) - spec_fx_mul(a.z as int, b.y as int))
    &&& fits_i64(spec_fx_mul(a.z as int, b.x as int) - spec_fx_mul(a.x as int, b.z as int))
    &&& fits_i64(spec_fx_mul(a.x as int, b.y as int) - spec_fx_mul(a.y as int, b.x as int))
}

pub open spec fn spec_cross(a: Vec3, b: Vec3) -> Vec3 {
    Vec3 {
        x: (spec_fx_mul(a.y as int, b.z as int) - spec_fx_mul(a.z as int, b.y as int)) as i64,
        y: (spec_fx_mul(a.z as int, b.x as int) - spec_fx_mul(a.x as int, b.z as int)) as i64,
        z: (spec_fx_mul(a.x as int, b.y as int) - spec_fx_mul(a.y as int, b.x as int)) as i64,
    }
}

impl Vec3 {
    pub fn new(x: i64, y: i64, z: i64) -> (r: Vec3)
        ensures
            r == (Vec3 { x, y, z }),
    {
        Vec3 { x, y, z }
    }

    pub fn zero() -> (r: Vec3)
        ensures
            r == (Vec3 { x: 0i64, y: 0i64, z: 0i64 }),
    {
        Vec3 { x: 0, y: 0, z: 0 }
    }

    pub fn add(&self, o: &Vec3) -> (r: Vec3)
        requires
            can_vadd(*self, *o),
        ensures
            r == spec_vadd(*self, *o),
    {
        Vec3 { x: self.x + o.x, y: self.y + o.y, z: self.z + o.z }
    }

    pub fn sub(&self, o: &Vec3) -> (r: Vec3)
        requires
            can_vsub(*self, *o),
        ensures
            r == spec_vsub(*self, *o),
    {
        Vec3 { x: self.x - o.x, y: self.y - o.y, z: self.z - o.z }
    }

    pub fn neg(&self) -> (r: Vec3)
        requires
            self.x > i64::MIN,
            self.y > i64::MIN,
            self.z > i64::MIN,
        ensures
            r.x == -self.x,
            r.y == -self.y,
            r.z == -self.z,
    {
        Vec3 { x: -self.x, y: -self.y, z: -self.z }
    }

    /// Component-wise fixed-point scaling, each component rounded to nearest.
    pub fn scale(&self, k: i64) -> (r: Vec3)
        requires
            can_vscale(*self, k as int),
        ensures
            r == spec_vscale(*self, k as int),
    {
        Vec3 { x: fx_mul(self.x, k), y: fx_mul(self.y, k), z: fx_mul(self.z, k) }
    }

    /// Exact sum of squared components (raw units squared).
    pub fn norm_sq(&self) -> (r: i128)
        requires
            bounded(*self, COMP_LIMIT as int),
        ensures
            r == spec_norm_sq(*self),
            0 <= r <= 48_000_000_000_000_000_000_000_000_000_000_000_000,
    {
        proof {
            lemma_norm_sq_bounds(*self);
        }
        let xx = (self.x as i128) * (self.x as i128);
        let yy = (self.y as i128) * (self.y as i128);
        let zz = (self.z as i128) * (self.z as i128);
        xx + yy + zz
    }

    /// Euclidean norm in raw units, rounded down to an integer.
    pub fn norm(&self) -> (r: i64)
        requires
            bounded(*self, COMP_LIMIT as int),
        ensures
            is_isqrt(spec_norm_sq(*self), r as int),
            r == spec_norm(*self),
            0 <= r <= 6_928_203_230_275_509_300,
    {
        proof {
            lemma_norm_sq_bounds(*self);
        }
        let n = self.norm_sq();
        let r = isqrt(n as u128);
        proof {
            assert(r as int * (r as int) <= spec_norm_sq(*self));
            assert(r <= 6_928_203_230_275_509_300u64) by (nonlinear_arith)
                requires
                    r as int * (r as int) <= 48_000_000_000_000_000_000_000_000_000_000_000_000;
            lemma_sqrt_floor(spec_norm_sq(*self), r as int);
        }
        r as i64
    }

    /// Dot product rescaled to fixed point, rounded to nearest.
    pub fn dot(&self, o: &Vec3) -> (r: i64)
        requires
            bounded(*self, COMP_LIMIT as int),
            bounded(*o, COMP_LIMIT as int),
            fits_i64(spec_dot(*self, *o)),
        ensures
            r == spec_dot(*self, *o),
    {
        proof {
            lemma_dot_bounds(*self, *o);
        }
        let s: i128 = (self.x as i128) * (o.x as i128) + (self.y as i128) * (o.y as i128)
            + (self.z as i128) * (o.z as i128);
        let q = div_floor(2 * s + (SCALE as i128), 2 * (SCALE as i128));
        q as i64
    }

    /// Cross product with each term rescaled to fixed point.
    pub fn cross(&self, o: &Vec3) -> (r: Vec3)
        requires
            can_cross(*self, *o),
        ensures
            r == spec_cross(*self, *o),
    {
        Vec3 {
            x: fx_mul(self.y, o.z) - fx_mul(self.z, o.y),
            y: fx_mul(self.z, o.x) - fx_mul(self.x, o.z),
            z: fx_mul(self.x, o.y) - fx_mul(self.y, o.x),
        }
    }
}

/// The rescaled dot product of vectors bounded by `la` and `lb` is bounded
/// by `3 * la * lb / SCALE`, give or take one raw unit.
pub proof fn lemma_dot_bound_by(a: Vec3, b: Vec3, la: int, lb: int, m: int)
    requires
        bounded(a, la),
        bounded(b, lb),
        0 <= la,
        0 <= lb,
        3 * (la * lb) <= m,
    ensures
        -(m / (SCALE as int) + 1) <= spec_dot(a, b) <= m / (SCALE as int) + 1,
{
    assert(-(la * lb) <= a.x * b.x <= la * lb && -(la * lb) <= a.y * b.y <= la * lb && -(la
        * lb) <= a.z * b.z <= la * lb) by (nonlinear_arith)
        requires
            bounded(a, la),
            bounded(b, lb),
            0 <= la,
            0 <= lb;
    crate::numerics::fxp::lemma_nearest_rescale_bound(
        a.x * b.x + a.y * b.y + a.z * b.z,
        m,
    );
}

/// No component of a vector exceeds the vector's integer norm.
pub proof fn lemma_comp_within_norm(v: Vec3, r: int)
    requires
        is_isqrt(spec_norm_sq(v), r),
    ensures
        -r <= v.x <= r,
        -r <= v.y <= r,
        -r <= v.z <= r,
{
    assert(v.x * v.x <= spec_norm_sq(v) && v.y * v.y <= spec_norm_sq(v) && v.z * v.z
        <= spec_norm_sq(v)) by (nonlinear_arith);
    crate::numerics::fxp::lemma_sq_within_isqrt(v.x as int, spec_norm_sq(v), r);
    crate::numerics::fxp::lemma_sq_within_isqrt(v.y as int, spec_norm_sq(v), r);
    crate::numerics::fxp::lemma_sq_within_isqrt(v.z as int, spec_norm_sq(v), r);
}

/// Squared components of a bounded vector sum to at most 3 * COMP_LIMIT^2.
proof fn lemma_norm_sq_bounds(v: Vec3)
    requires
        bounded(v, COMP_LIMIT as int),
    ensures
        0 <= v.x * v.x <= 16_000_000_000_000_000_000_000_000_000_000_000_000,
        0 <= v.y * v.y <= 16_000_000_000_000_000_000_000_000_000_000_000_000,
        0 <= v.z * v.z <= 16_000_000_000_000_000_000_000_000_000_000_000_000,
        0 <= spec_norm_sq(v) <= 48_000_000_000_000_000_000_000_000_000_000_000_000,
{
    assert(0 <= v.x * v.x <= 16_000_000_000_000_000_000_000_000_000_000_000_000
        && 0 <= v.y * v.y <= 16_000_000_000_000_000_000_000_000_000_000_000_000
        && 0 <= v.z * v.z <= 16_000_000_000_000_000_000_000_000_000_000_000_000) by (nonlinear_arith)
        requires
            bounded(v, COMP_LIMIT as int);
}

/// Pairwise products of bounded components stay within i128 range.
proof fn lemma_dot_bounds(a: Vec3, b: Vec3)
    requires
        bounded(a, COMP_LIMIT as int),
        bounded(b, COMP_LIMIT as int),
    ensures
        -16_000_000_000_000_000_000_000_000_000_000_000_000 <= a.x * b.x <= 16_000_000_000_000_000_000_000_000_000_000_000_000,
        -16_000_000_000_000_000_000_000_000_000_000_000_000 <= a.y * b.y <= 16_000_000_000_000_000_000_000_000_000_000_000_000,
        -16_000_000_000_000_000_000_000_000_000_000_000_000 <= a.z * b.z <= 16_000_000_000_000_000_000_000_000_000_000_000_000,
{
    assert(-16_000_000_000_000_000_000_000_000_000_000_000_000 <= a.x * b.x <= 16_000_000_000_000_000_000_000_000_000_000_000_000
        && -16_000_000_000_000_000_000_000_000_000_000_000_000 <= a.y * b.y <= 16_000_000_000_000_000_000_000_000_000_000_000_000
        && -16_000_000_000_000_000_000_000_000_000_000_000_000 <= a.z * b.z <= 16_000_000_000_000_000_000_000_000_000_000_000_000)
        by (nonlinear_arith)
        requires
            bounded(a, COMP_LIMIT as int),
            bounded(b, COMP_LIMIT as int);
}

} // verus!
