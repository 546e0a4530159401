//! Fixed-point scalar arithmetic.
//!
//! A fixed-point value is an `i64` holding the represented number times
//! `SCALE`, so it carries six decimal places.  Multiplication and division
//! rescale their result and round it to the nearest representable value,
//! rounding half upward; both directions of that rounding are pinned down
//! exactly by the contracts, through the Euclidean `/` of specifications.

use vstd::prelude::*;
use vstd::arithmetic::div_mod::{
    lemma_fundamental_div_mod, lemma_fundamental_div_mod_converse_div, lemma_mod_bound,
};

verus! {

/// Raw units per whole unit: every fixed-point `i64` holds its value times this.
pub const SCALE: i64 = 1_000_000;

pub open spec fn fits_i64(x: int) -> bool {
    i64::MIN <= x <= i64::MAX
}

/// The product of two fixed-point values, rescaled and rounded to nearest
/// (halves upward): round(a * k / SCALE).
pub open spec fn spec_fx_mul(a: int, k: int) -> int {
    (2 * a * k + SCALE) / (2 * SCALE)
}

/// The quotient of two fixed-point values (divisor positive), rescaled and
/// rounded to nearest (halves upward): round(a * SCALE / b).
pub open spec fn spec_fx_div(a: int, b: int) -> int {
    (2 * a * SCALE + b) / (2 * b)
}

/// Euclidean (floor, for positive divisor) quotient on `i128`.
pub fn div_floor(a: i128, b: i128) -> (q: i128)
    requires
        0 < b,
        i128::MIN < a,
    ensures
        q == a as int / b as int,
{
    if a >= 0 {
        let q = (a as u128) / (b as u128);
        proof {
            assert(q == a as int / b as int);
        }
        q as i128
    } else {
        let m = (-a) as u128;
        let bu = b as u128;
        let qc = (m + (bu - 1)) / bu;
        proof {
            let ai = a as int;
            let bi = b as int;
            let qe = ai / bi;
            let re = ai % bi;
            lemma_fundamental_div_mod(ai, bi);
            lemma_mod_bound(ai, bi);
            // m + b - 1 decomposes over the divisor with quotient -qe
            assert(m == -ai);
            assert(m + bi - 1 == (-qe) * bi + (bi - 1 - re)) by (nonlinear_arith)
                requires
                    m == -ai,
                    ai == bi * qe + re;
            lemma_fundamental_div_mod_converse_div(
                m as int + bi - 1,
                bi,
                -qe,
                bi - 1 - re,
            );
            assert(qc == -qe);
            // a quotient of a negative dividend is no smaller than the dividend
            assert(qe >= ai) by (nonlinear_arith)
                requires
                    ai == bi * qe + re,
                    0 <= re < bi,
                    0 < bi,
                    ai < 0;
        }
        -(qc as i128)
    }
}

/// Fixed-point multiply: the result represents a * k, rounded to nearest.
pub fn fx_mul(a: i64, k: i64) -> (r: i64)
    requires
        !(a == i64::MIN && k == i64::MIN),
        fits_i64(spec_fx_mul(a as int, k as int)),
    ensures
        r == spec_fx_mul(a as int, k as int),
{
    proof {
        assert(-0x3fffffffffffffff8000000000000000 <= (a as int) * (k as int)
            <= 0x3fffffffffffffff8000000000000000) by (nonlinear_arith)
            requires
                -0x8000000000000000 <= a as int <= 0x7fffffffffffffff,
                -0x8000000000000000 <= k as int <= 0x7fffffffffffffff,
                !(a as int == -0x8000000000000000 && k as int == -0x8000000000000000);
    }
    let p: i128 = (a as i128) * (k as i128);
    proof {
        assert(2 * (a as int) * (k as int) == 2 * ((a as int) * (k as int)))
            by (nonlinear_arith);
    }
    let q = div_floor(2 * p + (SCALE as i128), 2 * (SCALE as i128));
    q as i64
}

/// Raw units per whole unit of the finer, twelve-decimal-place scale used
/// where six places underflow (atmospheric density and its factors).
pub const SCALE_P12: i64 = 1_000_000_000_000;

/// The product of a twelve-place value with a six-place value leaves a
/// twelve-place value, and of a twelve-place pair a six-place one; this is
/// the rescaling by SCALE_P12, rounded to nearest (halves upward).
pub open spec fn spec_fx_mul_p12(a: int, k: int) -> int {
    (2 * a * k + SCALE_P12) / (2 * SCALE_P12)
}

pub fn fx_mul_p12(a: i64, k: i64) -> (r: i64)
    requires
        !(a == i64::MIN && k == i64::MIN),
        fits_i64(spec_fx_mul_p12(a as int, k as int)),
    ensures
        r == spec_fx_mul_p12(a as int, k as int),
{
    proof {
        assert(-0x3fffffffffffffff8000000000000000 <= (a as int) * (k as int)
            <= 0x3fffffffffffffff8000000000000000) by (nonlinear_arith)
            requires
                -0x8000000000000000 <= a as int <= 0x7fffffffffffffff,
                -0x8000000000000000 <= k as int <= 0x7fffffffffffffff,
                !(a as int == -0x8000000000000000 && k as int == -0x8000000000000000);
    }
    let p: i128 = (a as i128) * (k as i128);
    proof {
        assert(2 * (a as int) * (k as int) == 2 * ((a as int) * (k as int)))
            by (nonlinear_arith);
    }
    let q = div_floor(2 * p + (SCALE_P12 as i128), 2 * (SCALE_P12 as i128));
    q as i64
}

/// Like `lemma_fx_mul_bound`, for the twelve-place rescaling.
pub proof fn lemma_fx_mul_p12_bound(a: int, b: int, la: int, lb: int, m: int)
    requires
        -la <= a <= la,
        -lb <= b <= lb,
        0 <= la,
        0 <= lb,
        la * lb <= m,
    ensures
        -(m / (SCALE_P12 as int) + 1) <= spec_fx_mul_p12(a, b) <= m / (SCALE_P12 as int) + 1,
{
    assert(-2 * m <= 2 * a * b <= 2 * m) by (nonlinear_arith)
        requires
            -la <= a <= la,
            -lb <= b <= lb,
            0 <= la,
            0 <= lb,
            la * lb <= m;
    lemma_fundamental_div_mod(m, SCALE_P12 as int);
    lemma_mod_bound(m, SCALE_P12 as int);
    let s = SCALE_P12 as int;
    let q = m / s;
    lemma_fundamental_div_mod(2 * a * b + s, 2 * s);
    lemma_mod_bound(2 * a * b + s, 2 * s);
    assert(spec_fx_mul_p12(a, b) <= q + 1) by (nonlinear_arith)
        requires
            2 * a * b <= 2 * m,
            m == s * q + m % s,
            0 <= m % s < s,
            s == SCALE_P12 as int,
            spec_fx_mul_p12(a, b) == (2 * a * b + s) / (2 * s),
            (2 * a * b + s) == 2 * s * ((2 * a * b + s) / (2 * s)) + (2 * a * b + s) % (2 * s),
            0 <= (2 * a * b + s) % (2 * s) < 2 * s;
    assert(-(q + 1) <= spec_fx_mul_p12(a, b)) by (nonlinear_arith)
        requires
            -2 * m <= 2 * a * b,
            m == s * q + m % s,
            0 <= m % s < s,
            s == SCALE_P12 as int,
            spec_fx_mul_p12(a, b) == (2 * a * b + s) / (2 * s),
            (2 * a * b + s) == 2 * s * ((2 * a * b + s) / (2 * s)) + (2 * a * b + s) % (2 * s),
            0 <= (2 * a * b + s) % (2 * s) < 2 * s;
}

/// The twelve-place rescaled product of scalars in [0, SCALE_P12] stays in
/// [0, SCALE_P12].
pub proof fn lemma_fx_mul_p12_unit(a: int, b: int)
    requires
        0 <= a <= SCALE_P12,
        0 <= b <= SCALE_P12,
    ensures
        0 <= spec_fx_mul_p12(a, b) <= SCALE_P12,
{
    let s = SCALE_P12 as int;
    assert(0 <= 2 * a * b <= 2 * s * s) by (nonlinear_arith)
        requires
            0 <= a <= s,
            0 <= b <= s;
    assert(2 * s * s + s == s * (2 * s) + s) by (nonlinear_arith);
    lemma_fundamental_div_mod_converse_div(2 * s * s + s, 2 * s, s, s);
    vstd::arithmetic::div_mod::lemma_div_is_ordered(2 * a * b + s, 2 * s * s + s, 2 * s);
    vstd::arithmetic::div_mod::lemma_div_pos_is_pos(2 * a * b + s, 2 * s);
}

/// Quotient rounded toward zero (positive divisor).
pub open spec fn spec_trunc_div(n: int, d: int) -> int {
    if n >= 0 {
        n / d
    } else {
        -((-n) / d)
    }
}

/// Truncating quotient on `i128`, rounding toward zero.
pub fn div_trunc(a: i128, b: i128) -> (q: i128)
    requires
        0 < b,
        i128::MIN < a,
    ensures
        q == spec_trunc_div(a as int, b as int),
{
    if a >= 0 {
        ((a as u128) / (b as u128)) as i128
    } else {
        let m = (-a) as u128;
        let qu = m / (b as u128);
        proof {
            vstd::arithmetic::div_mod::lemma_div_nonincreasing(m as int, b as int);
            vstd::arithmetic::div_mod::lemma_div_pos_is_pos(m as int, b as int);
        }
        -(qu as i128)
    }
}

/// The product of two fixed-point values, rescaled with truncation toward
/// zero, so the magnitude never rounds up.
pub open spec fn spec_fx_mul_trunc(a: int, k: int) -> int {
    spec_trunc_div(a * k, SCALE as int)
}

pub fn fx_mul_trunc(a: i64, k: i64) -> (r: i64)
    requires
        !(a == i64::MIN && k == i64::MIN),
        fits_i64(spec_fx_mul_trunc(a as int, k as int)),
    ensures
        r == spec_fx_mul_trunc(a as int, k as int),
{
    proof {
        assert(-0x3fffffffffffffff8000000000000000 <= (a as int) * (k as int)
            <= 0x3fffffffffffffff8000000000000000) by (nonlinear_arith)
            requires
                -0x8000000000000000 <= a as int <= 0x7fffffffffffffff,
                -0x8000000000000000 <= k as int <= 0x7fffffffffffffff,
                !(a as int == -0x8000000000000000 && k as int == -0x8000000000000000);
    }
    let p: i128 = (a as i128) * (k as i128);
    let q = div_trunc(p, SCALE as i128);
    q as i64
}

/// The quotient of two fixed-point values (divisor positive), rescaled
/// with truncation toward zero.
pub open spec fn spec_fx_div_trunc(a: int, b: int) -> int {
    spec_trunc_div(a * SCALE, b)
}

pub fn fx_div_trunc(a: i64, b: i64) -> (r: i64)
    requires
        0 < b,
        fits_i64(spec_fx_div_trunc(a as int, b as int)),
    ensures
        r == spec_fx_div_trunc(a as int, b as int),
{
    let p: i128 = (a as i128) * (SCALE as i128);
    let q = div_trunc(p, b as i128);
    q as i64
}

/// The magnitude of a truncating quotient never exceeds the exact ratio:
/// |q| * d <= |n|.
pub proof fn lemma_trunc_div_mag(n: int, d: int)
    requires
        0 < d,
    ensures
        spec_trunc_div(n, d) * d <= n || n < 0,
        n <= spec_trunc_div(n, d) * d || n > 0,
        n >= 0 ==> 0 <= spec_trunc_div(n, d) && spec_trunc_div(n, d) * d <= n,
        n < 0 ==> spec_trunc_div(n, d) <= 0 && n <= spec_trunc_div(n, d) * d,
{
    if n >= 0 {
        lemma_fundamental_div_mod(n, d);
        lemma_mod_bound(n, d);
        vstd::arithmetic::div_mod::lemma_div_pos_is_pos(n, d);
        assert((n / d) * d <= n) by (nonlinear_arith)
            requires
                n == d * (n / d) + n % d,
                0 <= n % d;
    } else {
        lemma_fundamental_div_mod(-n, d);
        lemma_mod_bound(-n, d);
        vstd::arithmetic::div_mod::lemma_div_pos_is_pos(-n, d);
        assert(n <= (-((-n) / d)) * d) by (nonlinear_arith)
            requires
                -n == d * ((-n) / d) + (-n) % d,
                0 <= (-n) % d;
    }
}

/// Half of a value, rounded to nearest (halves upward): round(a / 2).
pub open spec fn spec_fx_half(a: int) -> int {
    (a + 1) / 2
}

pub fn fx_half(a: i64) -> (r: i64)
    ensures
        r == spec_fx_half(a as int),
{
    let q = div_floor(a as i128 + 1, 2);
    q as i64
}

/// Fixed-point divide by a positive divisor: the result represents a / b,
/// rounded to nearest.
pub fn fx_div(a: i64, b: i64) -> (r: i64)
    requires
        0 < b,
        fits_i64(spec_fx_div(a as int, b as int)),
    ensures
        r == spec_fx_div(a as int, b as int),
{
    let p: i128 = 2 * (a as i128) * (SCALE as i128) + (b as i128);
    let q = div_floor(p, 2 * (b as i128));
    q as i64
}

/// A rescaled product of scalars bounded by `la` and `lb` is bounded by
/// `la * lb / SCALE`, give or take one raw unit of rounding.
pub proof fn lemma_fx_mul_bound(a: int, b: int, la: int, lb: int, m: int)
    requires
        -la <= a <= la,
        -lb <= b <= lb,
        0 <= la,
        0 <= lb,
        la * lb <= m,
    ensures
        -(m / (SCALE as int) + 1) <= spec_fx_mul(a, b) <= m / (SCALE as int) + 1,
{
    assert(-2 * m <= 2 * a * b <= 2 * m) by (nonlinear_arith)
        requires
            -la <= a <= la,
            -lb <= b <= lb,
            0 <= la,
            0 <= lb,
            la * lb <= m;
    lemma_fundamental_div_mod(m, SCALE as int);
    lemma_mod_bound(m, SCALE as int);
    let s = SCALE as int;
    let q = m / s;
    lemma_fundamental_div_mod(2 * a * b + s, 2 * s);
    lemma_mod_bound(2 * a * b + s, 2 * s);
    // upper: (2m + s) / (2s) <= q + 1 because 2m + s < (q + 2) * (2s)
    assert(spec_fx_mul(a, b) <= q + 1) by (nonlinear_arith)
        requires
            2 * a * b <= 2 * m,
            m == s * q + m % s,
            0 <= m % s < s,
            s == SCALE as int,
            spec_fx_mul(a, b) == (2 * a * b + s) / (2 * s),
            (2 * a * b + s) == 2 * s * ((2 * a * b + s) / (2 * s)) + (2 * a * b + s) % (2 * s),
            0 <= (2 * a * b + s) % (2 * s) < 2 * s;
    assert(-(q + 1) <= spec_fx_mul(a, b)) by (nonlinear_arith)
        requires
            -2 * m <= 2 * a * b,
            m == s * q + m % s,
            0 <= m % s < s,
            s == SCALE as int,
            spec_fx_mul(a, b) == (2 * a * b + s) / (2 * s),
            (2 * a * b + s) == 2 * s * ((2 * a * b + s) / (2 * s)) + (2 * a * b + s) % (2 * s),
            0 <= (2 * a * b + s) % (2 * s) < 2 * s;
}

/// Scaling a sum and summing the scaled parts agree to at most one raw unit:
/// the rounding of each half can shift the total by one either way.
pub proof fn lemma_fx_mul_distributes(x: int, y: int, k: int)
    ensures
        -1 <= spec_fx_mul(x + y, k) - (spec_fx_mul(x, k) + spec_fx_mul(y, k)) <= 1,
{
    let s = SCALE as int;
    let u = 2 * x * k;
    let v = 2 * y * k;
    assert(2 * (x + y) * k == 2 * x * k + 2 * y * k) by (nonlinear_arith);
    lemma_fundamental_div_mod(u + s, 2 * s);
    lemma_mod_bound(u + s, 2 * s);
    lemma_fundamental_div_mod(v + s, 2 * s);
    lemma_mod_bound(v + s, 2 * s);
    let p = (u + s) / (2 * s);
    let a1 = (u + s) % (2 * s);
    let q = (v + s) / (2 * s);
    let b1 = (v + s) % (2 * s);
    assert(u + v + s == 2 * s * (p + q) + (a1 + b1 - s)) by (nonlinear_arith)
        requires
            u + s == 2 * s * p + a1,
            v + s == 2 * s * q + b1;
    if a1 + b1 - s < 0 {
        assert(u + v + s == (p + q - 1) * (2 * s) + (a1 + b1 + s)) by (nonlinear_arith)
            requires
                u + v + s == 2 * s * (p + q) + (a1 + b1 - s);
        lemma_fundamental_div_mod_converse_div(u + v + s, 2 * s, p + q - 1, a1 + b1 + s);
    } else if a1 + b1 - s < 2 * s {
        assert(u + v + s == (p + q) * (2 * s) + (a1 + b1 - s)) by (nonlinear_arith)
            requires
                u + v + s == 2 * s * (p + q) + (a1 + b1 - s);
        lemma_fundamental_div_mod_converse_div(u + v + s, 2 * s, p + q, a1 + b1 - s);
    } else {
        assert(u + v + s == (p + q + 1) * (2 * s) + (a1 + b1 - 3 * s)) by (nonlinear_arith)
            requires
                u + v + s == 2 * s * (p + q) + (a1 + b1 - s);
        lemma_fundamental_div_mod_converse_div(u + v + s, 2 * s, p + q + 1, a1 + b1 - 3 * s);
    }
}

/// Scaling by one whole unit is the identity.
pub proof fn lemma_fx_mul_one(x: int)
    ensures
        spec_fx_mul(x, SCALE as int) == x,
{
    let s = SCALE as int;
    assert(2 * x * s + s == x * (2 * s) + s) by (nonlinear_arith);
    lemma_fundamental_div_mod_converse_div(2 * x * s + s, 2 * s, x, s);
}

/// Scaling zero, or by zero, gives exactly zero.
pub proof fn lemma_fx_mul_zero(x: int)
    ensures
        spec_fx_mul(x, 0) == 0,
        spec_fx_mul(0, x) == 0,
{
    let s = SCALE as int;
    assert(2 * x * 0 == 0 && 2 * 0 * x == 0) by (nonlinear_arith);
    lemma_fundamental_div_mod_converse_div(s, 2 * s, 0, s);
}

/// Dividing a value by a divisor at least as large gives a result within
/// one whole unit.
pub proof fn lemma_fx_div_bounds(a: int, b: int)
    requires
        0 < b,
        -b <= a <= b,
    ensures
        -(SCALE as int) <= spec_fx_div(a, b) <= SCALE as int,
{
    let s = SCALE as int;
    let x = 2 * a * s + b;
    assert(2 * a * s + b <= 2 * b * s + b && -(2 * b * s) + b <= 2 * a * s + b)
        by (nonlinear_arith)
        requires
            -b <= a <= b,
            0 < b,
            0 < s;
    lemma_fundamental_div_mod(x, 2 * b);
    lemma_mod_bound(x, 2 * b);
    assert(spec_fx_div(a, b) <= s) by (nonlinear_arith)
        requires
            x <= 2 * b * s + b,
            0 < b,
            0 < s,
            spec_fx_div(a, b) == x / (2 * b),
            x == 2 * b * (x / (2 * b)) + x % (2 * b),
            0 <= x % (2 * b) < 2 * b;
    assert(-s <= spec_fx_div(a, b)) by (nonlinear_arith)
        requires
            -(2 * b * s) + b <= x,
            0 < b,
            0 < s,
            spec_fx_div(a, b) == x / (2 * b),
            x == 2 * b * (x / (2 * b)) + x % (2 * b),
            0 <= x % (2 * b) < 2 * b;
}

/// The rescaled product of two scalars in the unit interval [0, SCALE]
/// stays in the unit interval.
pub proof fn lemma_fx_mul_unit(a: int, b: int)
    requires
        0 <= a <= SCALE,
        0 <= b <= SCALE,
    ensures
        0 <= spec_fx_mul(a, b) <= SCALE,
{
    let s = SCALE as int;
    assert(0 <= 2 * a * b <= 2 * s * s) by (nonlinear_arith)
        requires
            0 <= a <= s,
            0 <= b <= s;
    assert(2 * s * s + s == s * (2 * s) + s) by (nonlinear_arith);
    lemma_fundamental_div_mod_converse_div(2 * s * s + s, 2 * s, s, s);
    vstd::arithmetic::div_mod::lemma_div_is_ordered(2 * a * b + s, 2 * s * s + s, 2 * s);
    vstd::arithmetic::div_mod::lemma_div_pos_is_pos(2 * a * b + s, 2 * s);
}

/// Rounding x / SCALE to nearest keeps a bounded x within m / SCALE plus
/// one raw unit.
pub proof fn lemma_nearest_rescale_bound(x: int, m: int)
    requires
        -m <= x <= m,
        0 <= m,
    ensures
        -(m / (SCALE as int) + 1) <= (2 * x + SCALE) / (2 * SCALE) <= m / (SCALE as int) + 1,
{
    let s = SCALE as int;
    lemma_fundamental_div_mod(m, s);
    lemma_mod_bound(m, s);
    let q = m / s;
    lemma_fundamental_div_mod(2 * x + s, 2 * s);
    lemma_mod_bound(2 * x + s, 2 * s);
    assert((2 * x + s) / (2 * s) <= q + 1) by (nonlinear_arith)
        requires
            x <= m,
            m == s * q + m % s,
            0 <= m % s < s,
            s == SCALE as int,
            (2 * x + s) == 2 * s * ((2 * x + s) / (2 * s)) + (2 * x + s) % (2 * s),
            0 <= (2 * x + s) % (2 * s) < 2 * s;
    assert(-(q + 1) <= (2 * x + s) / (2 * s)) by (nonlinear_arith)
        requires
            -m <= x,
            m == s * q + m % s,
            0 <= m % s < s,
            s == SCALE as int,
            (2 * x + s) == 2 * s * ((2 * x + s) / (2 * s)) + (2 * x + s) % (2 * s),
            0 <= (2 * x + s) % (2 * s) < 2 * s;
}

/// A rescaled product of nonnegative scalars is nonnegative.
pub proof fn lemma_fx_mul_nonneg(a: int, b: int)
    requires
        0 <= a,
        0 <= b,
    ensures
        0 <= spec_fx_mul(a, b),
{
    assert(0 <= 2 * a * b) by (nonlinear_arith)
        requires
            0 <= a,
            0 <= b;
    vstd::arithmetic::div_mod::lemma_div_pos_is_pos(2 * a * b + SCALE, 2 * SCALE);
}

/// A value whose square is at most `n` lies within the integer square root
/// of `n`.
pub proof fn lemma_sq_within_isqrt(a: int, n: int, r: int)
    requires
        a * a <= n,
        is_isqrt(n, r),
    ensures
        -r <= a <= r,
{
    assert(-r <= a <= r) by (nonlinear_arith)
        requires
            a * a <= n,
            0 <= r && r * r <= n < (r + 1) * (r + 1);
}

/// Rounding x / d to nearest keeps it within m when |x| is at most m * d.
pub proof fn lemma_nearest_div_bound(x: int, d: int, m: int)
    requires
        0 < d,
        0 <= m,
        -m * d <= x <= m * d,
    ensures
        -m <= (2 * x + d) / (2 * d) <= m,
{
    assert(2 * (m * d) + d == m * (2 * d) + d) by (nonlinear_arith);
    assert(-2 * (m * d) + d == (-m) * (2 * d) + d) by (nonlinear_arith);
    assert((-m) * d == -(m * d)) by (nonlinear_arith);
    lemma_fundamental_div_mod_converse_div(2 * (m * d) + d, 2 * d, m, d);
    lemma_fundamental_div_mod_converse_div(-2 * (m * d) + d, 2 * d, -m, d);
    vstd::arithmetic::div_mod::lemma_div_is_ordered(2 * x + d, 2 * (m * d) + d, 2 * d);
    vstd::arithmetic::div_mod::lemma_div_is_ordered(-2 * (m * d) + d, 2 * x + d, 2 * d);
}

/// Integer square root: the greatest integer whose square does not exceed `n`.
pub open spec fn is_isqrt(n: int, r: int) -> bool {
    0 <= r && r * r <= n < (r + 1) * (r + 1)
}

/// The integer square root as a function, for use in composite contracts.
pub open spec fn spec_sqrt_floor(n: int) -> int {
    choose|r: int| is_isqrt(n, r)
}

pub proof fn lemma_isqrt_unique(n: int, a: int, b: int)
    requires
        is_isqrt(n, a),
        is_isqrt(n, b),
    ensures
        a == b,
{
    assert(a <= b && b <= a) by (nonlinear_arith)
        requires
            0 <= a && a * a <= n < (a + 1) * (a + 1),
            0 <= b && b * b <= n < (b + 1) * (b + 1);
}

/// A witness that `r` is the integer square root of `n` pins down
/// `spec_sqrt_floor(n)`.
pub proof fn lemma_sqrt_floor(n: int, r: int)
    requires
        is_isqrt(n, r),
    ensures
        spec_sqrt_floor(n) == r,
{
    let c = choose|x: int| is_isqrt(n, x);
    assert(is_isqrt(n, c));
    lemma_isqrt_unique(n, c, r);
}

pub fn isqrt(n: u128) -> (r: u64)
    ensures
        is_isqrt(n as int, r as int),
{
    if n == 0 {
        return 0;
    }
    // Invariant: lo * lo <= n < hi * hi, with hi no more than 2^64.
    let mut lo: u128 = 0;
    let mut hi: u128 = 0x1_0000_0000_0000_0000;
    proof {
        assert(hi * hi > n) by (nonlinear_arith)
            requires hi == 0x1_0000_0000_0000_0000u128 && n <= u128::MAX;
    }
    while lo + 1 < hi
        invariant
            lo * lo <= n,
            n < hi * hi,
            lo < hi,
            hi <= 0x1_0000_0000_0000_0000,
        decreases hi - lo,
    {
        let mid = lo + (hi - lo) / 2;
        proof {
            assert(lo < mid < hi);
            assert(mid * mid < 0x1_0000_0000_0000_0000u128 * 0x1_0000_0000_0000_0000u128)
                by (nonlinear_arith)
                requires mid < 0x1_0000_0000_0000_0000u128;
        }
        if mid * mid <= n {
            lo = mid;
        } else {
            hi = mid;
        }
    }
    proof {
        assert(lo < 0x1_0000_0000_0000_0000u128);
    }
    lo as u64
}

} // verus!
