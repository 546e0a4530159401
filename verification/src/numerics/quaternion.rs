//! Quaternion utilities for spacecraft attitude dynamics.
//!
//! Scalar-first convention: q = (w, x, y, z) represents the rotation taking
//! the inertial frame to the body frame.  Components are fixed-point scalars.

use vstd::prelude::*;
use crate::numerics::fxp::{
    fx_div, fx_half, fx_mul, is_isqrt, isqrt, lemma_sqrt_floor, spec_fx_div, spec_fx_half,
    spec_fx_mul, spec_sqrt_floor, SCALE,
};
use crate::numerics::vec3::Vec3;
use crate::numerics::mat3::Mat3;

verus! {

/// Largest component magnitude the quaternion products accept (2000 in
/// whole units -- far beyond any drifting unit quaternion).
pub const QCOMP_LIMIT: i64 = 2_000_000_000;

/// Larger limit under which a squared norm still fits an `i128`; raw
/// Hamilton products of `QCOMP_LIMIT`-bounded quaternions stay below it.
pub const QNORM_LIMIT: i64 = 4_000_000_000_000_000;

#[derive(Clone, Copy, Debug, PartialEq, Eq, Structural)]
pub struct Quaternion {
    pub w: i64,
    pub x: i64,
    pub y: i64,
    pub z: i64,
}

pub open spec fn q_bounded(q: Quaternion, b: int) -> bool {
    &&& -b <= q.w <= b
    &&& -b <= q.x <= b
    &&& -b <= q.y <= b
    &&& -b <= q.z <= b
}

/// Sum of squared components, raw units squared (exact).
pub open spec fn spec_qnorm_sq(q: Quaternion) -> int {
    q.w * q.w + q.x * q.x + q.y * q.y + q.z * q.z
}

/// Hamilton product before renormalization, each term rounded to nearest.
pub open spec fn spec_qmul_raw(a: Quaternion, b: Quaternion) -> Quaternion {
    Quaternion {
        w: (spec_fx_mul(a.w as int, b.w as int) - spec_fx_mul(a.x as int, b.x as int)
            - spec_fx_mul(a.y as int, b.y as int) - spec_fx_mul(a.z as int, b.z as int)) as i64,
        x: (spec_fx_mul(a.w as int, b.x as int) + spec_fx_mul(b.w as int, a.x as int)
            + spec_fx_mul(a.y as int, b.z as int) - spec_fx_mul(a.z as int, b.y as int)) as i64,
        y: (spec_fx_mul(a.w as int, b.y as int) + spec_fx_mul(b.w as int, a.y as int)
            + spec_fx_mul(a.z as int, b.x as int) - spec_fx_mul(a.x as int, b.z as int)) as i64,
        z: (spec_fx_mul(a.w as int, b.z as int) + spec_fx_mul(b.w as int, a.z as int)
            + spec_fx_mul(a.x as int, b.y as int) - spec_fx_mul(a.y as int, b.x as int)) as i64,
    }
}

/// Components divided by the integer norm, rounded to nearest.
pub open spec fn spec_qnormalize(q: Quaternion) -> Quaternion {
    let n = spec_sqrt_floor(spec_qnorm_sq(q));
    Quaternion {
        w: spec_fx_div(q.w as int, n) as i64,
        x: spec_fx_div(q.x as int, n) as i64,
        y: spec_fx_div(q.y as int, n) as i64,
        z: spec_fx_div(q.z as int, n) as i64,
    }
}

/// The rotation matrix of a quaternion, every product rounded to nearest.
pub open spec fn spec_q_to_matrix(q: Quaternion) -> Mat3 {
    let w = q.w as int;
    let x = q.x as int;
    let y = q.y as int;
    let z = q.z as int;
    Mat3 {
        r0: Vec3 {
            x: (SCALE - 2 * (spec_fx_mul(y, y) + spec_fx_mul(z, z))) as i64,
            y: (2 * (spec_fx_mul(x, y) - spec_fx_mul(w, z))) as i64,
            z: (2 * (spec_fx_mul(x, z) + spec_fx_mul(w, y))) as i64,
        },
        r1: Vec3 {
            x: (2 * (spec_fx_mul(x, y) + spec_fx_mul(w, z))) as i64,
            y: (SCALE - 2 * (spec_fx_mul(x, x) + spec_fx_mul(z, z))) as i64,
            z: (2 * (spec_fx_mul(y, z) - spec_fx_mul(w, x))) as i64,
        },
        r2: Vec3 {
            x: (2 * (spec_fx_mul(x, z) - spec_fx_mul(w, y))) as i64,
            y: (2 * (spec_fx_mul(y, z) + spec_fx_mul(w, x))) as i64,
            z: (SCALE - 2 * (spec_fx_mul(x, x) + spec_fx_mul(y, y))) as i64,
        },
    }
}

/// The kinematic derivative q' = q (x) (0, omega) / 2, scalar-first, with
/// each product and the final halving rounded to nearest.
pub open spec fn spec_q_derivative(q: Quaternion, w: Vec3) -> Quaternion {
    let qw = q.w as int;
    let qx = q.x as int;
    let qy = q.y as int;
    let qz = q.z as int;
    let wx = w.x as int;
    let wy = w.y as int;
    let wz = w.z as int;
    Quaternion {
        w: (-spec_fx_half(
            spec_fx_mul(qx, wx) + spec_fx_mul(qy, wy) + spec_fx_mul(qz, wz))) as i64,
        x: spec_fx_half(
            spec_fx_mul(qw, wx) + spec_fx_mul(qy, wz) - spec_fx_mul(qz, wy)) as i64,
        y: spec_fx_half(
            spec_fx_mul(qw, wy) + spec_fx_mul(qz, wx) - spec_fx_mul(qx, wz)) as i64,
        z: spec_fx_half(
            spec_fx_mul(qw, wz) + spec_fx_mul(qx, wy) - spec_fx_mul(qy, wx)) as i64,
    }
}

impl Quaternion {
    pub fn new(w: i64, x: i64, y: i64, z: i64) -> (r: Quaternion)
        ensures
            r == (Quaternion { w, x, y, z }),
    {
        Quaternion { w, x, y, z }
    }

    /// The scalar (first) component.
    pub fn scalar(&self) -> (r: i64)
        ensures
            r == self.w,
    {
        self.w
    }

    /// The vector part.
    pub fn vector(&self) -> (r: Vec3)
        ensures
            r == (Vec3 { x: self.x, y: self.y, z: self.z }),
    {
        Vec3 { x: self.x, y: self.y, z: self.z }
    }

    /// Rescales the components so the quaternion has unit norm (to rounding).
    pub fn normalize(&self) -> (r: Quaternion)
        requires
            q_bounded(*self, QNORM_LIMIT as int),
            spec_qnorm_sq(*self) > 0,
        ensures
            r == spec_qnormalize(*self),
    {
        proof {
            lemma_qnorm_sq_bounds(*self);
        }
        let ww = (self.w as i128) * (self.w as i128);
        let xx = (self.x as i128) * (self.x as i128);
        let yy = (self.y as i128) * (self.y as i128);
        let zz = (self.z as i128) * (self.z as i128);
        let nsq = ww + xx + yy + zz;
        let nu = isqrt(nsq as u128);
        proof {
            assert(nu <= 8_000_000_000_000_000u64) by (nonlinear_arith)
                requires
                    nu as int * (nu as int) <= 64_000_000_000_000_000_000_000_000_000_000int;
        }
        let n = nu as i64;
        proof {
            lemma_sqrt_floor(spec_qnorm_sq(*self), n as int);
            assert(n >= 1) by (nonlinear_arith)
                requires
                    is_isqrt(spec_qnorm_sq(*self), n as int),
                    spec_qnorm_sq(*self) > 0;
            lemma_comp_le_norm(self.w as int, spec_qnorm_sq(*self), n as int);
            lemma_comp_le_norm(self.x as int, spec_qnorm_sq(*self), n as int);
            lemma_comp_le_norm(self.y as int, spec_qnorm_sq(*self), n as int);
            lemma_comp_le_norm(self.z as int, spec_qnorm_sq(*self), n as int);
            crate::numerics::fxp::lemma_fx_div_bounds(self.w as int, n as int);
            crate::numerics::fxp::lemma_fx_div_bounds(self.x as int, n as int);
            crate::numerics::fxp::lemma_fx_div_bounds(self.y as int, n as int);
            crate::numerics::fxp::lemma_fx_div_bounds(self.z as int, n as int);
        }
        Quaternion {
            w: fx_div(self.w, n),
            x: fx_div(self.x, n),
            y: fx_div(self.y, n),
            z: fx_div(self.z, n),
        }
    }

    /// Rotation matrix of the quaternion (inertial-to-body, row-major).
    pub fn to_rotation_matrix(&self) -> (r: Mat3)
        requires
            q_bounded(*self, QCOMP_LIMIT as int),
        ensures
            r == spec_q_to_matrix(*self),
    {
        proof {
            lemma_fx_mul_qlim(self.w as int, self.w as int);
            lemma_fx_mul_qlim(self.w as int, self.x as int);
            lemma_fx_mul_qlim(self.w as int, self.y as int);
            lemma_fx_mul_qlim(self.w as int, self.z as int);
            lemma_fx_mul_qlim(self.x as int, self.x as int);
            lemma_fx_mul_qlim(self.x as int, self.y as int);
            lemma_fx_mul_qlim(self.x as int, self.z as int);
            lemma_fx_mul_qlim(self.y as int, self.y as int);
            lemma_fx_mul_qlim(self.y as int, self.z as int);
            lemma_fx_mul_qlim(self.z as int, self.z as int);
        }
        Mat3 {
            r0: Vec3 {
                x: SCALE - 2 * (fx_mul(self.y, self.y) + fx_mul(self.z, self.z)),
                y: 2 * (fx_mul(self.x, self.y) - fx_mul(self.w, self.z)),
                z: 2 * (fx_mul(self.x, self.z) + fx_mul(self.w, self.y)),
            },
            r1: Vec3 {
                x: 2 * (fx_mul(self.x, self.y) + fx_mul(self.w, self.z)),
                y: SCALE - 2 * (fx_mul(self.x, self.x) + fx_mul(self.z, self.z)),
                z: 2 * (fx_mul(self.y, self.z) - fx_mul(self.w, self.x)),
            },
            r2: Vec3 {
                x: 2 * (fx_mul(self.x, self.z) - fx_mul(self.w, self.y)),
                y: 2 * (fx_mul(self.y, self.z) + fx_mul(self.w, self.x)),
                z: SCALE - 2 * (fx_mul(self.x, self.x) + fx_mul(self.y, self.y)),
            },
        }
    }

    /// Hamilton product, renormalized to unit length as the last step.
    pub fn multiply(&self, other: &Quaternion) -> (r: Quaternion)
        requires
            q_bounded(*self, QCOMP_LIMIT as int),
            q_bounded(*other, QCOMP_LIMIT as int),
            spec_qnorm_sq(spec_qmul_raw(*self, *other)) > 0,
        ensures
            r == spec_qnormalize(spec_qmul_raw(*self, *other)),
    {
        proof {
            lemma_qmul_raw_bounded(*self, *other);
        }
        let p = Quaternion {
            w: fx_mul(self.w, other.w) - fx_mul(self.x, other.x) - fx_mul(self.y, other.y)
                - fx_mul(self.z, other.z),
            x: fx_mul(self.w, other.x) + fx_mul(other.w, self.x) + fx_mul(self.y, other.z)
                - fx_mul(self.z, other.y),
            y: fx_mul(self.w, other.y) + fx_mul(other.w, self.y) + fx_mul(self.z, other.x)
                - fx_mul(self.x, other.z),
            z: fx_mul(self.w, other.z) + fx_mul(other.w, self.z) + fx_mul(self.x, other.y)
                - fx_mul(self.y, other.x),
        };
        p.normalize()
    }
}

/// The kinematic quaternion derivative; exactly zero at zero angular rate.
pub fn compute_quaternion_derivative(q: &Quaternion, w: &Vec3) -> (r: Quaternion)
    requires
        q_bounded(*q, QCOMP_LIMIT as int),
        crate::numerics::vec3::bounded(*w, 100_000_000int),
    ensures
        r == spec_q_derivative(*q, *w),
        *w == (Vec3 { x: 0i64, y: 0i64, z: 0i64 }) ==> r == (Quaternion {
            w: 0i64,
            x: 0i64,
            y: 0i64,
            z: 0i64,
        }),
{
    proof {
        let lq = QCOMP_LIMIT as int;
        let lw = 100_000_000int;
        let m = 200_000_000_000_000_000int;
        crate::numerics::fxp::lemma_fx_mul_bound(q.x as int, w.x as int, lq, lw, m);
        crate::numerics::fxp::lemma_fx_mul_bound(q.y as int, w.y as int, lq, lw, m);
        crate::numerics::fxp::lemma_fx_mul_bound(q.z as int, w.z as int, lq, lw, m);
        crate::numerics::fxp::lemma_fx_mul_bound(q.w as int, w.x as int, lq, lw, m);
        crate::numerics::fxp::lemma_fx_mul_bound(q.y as int, w.z as int, lq, lw, m);
        crate::numerics::fxp::lemma_fx_mul_bound(q.z as int, w.y as int, lq, lw, m);
        crate::numerics::fxp::lemma_fx_mul_bound(q.w as int, w.y as int, lq, lw, m);
        crate::numerics::fxp::lemma_fx_mul_bound(q.z as int, w.x as int, lq, lw, m);
        crate::numerics::fxp::lemma_fx_mul_bound(q.x as int, w.z as int, lq, lw, m);
        crate::numerics::fxp::lemma_fx_mul_bound(q.w as int, w.z as int, lq, lw, m);
        crate::numerics::fxp::lemma_fx_mul_bound(q.x as int, w.y as int, lq, lw, m);
        crate::numerics::fxp::lemma_fx_mul_bound(q.y as int, w.x as int, lq, lw, m);
    }
    let r = Quaternion {
        w: -fx_half(fx_mul(q.x, w.x) + fx_mul(q.y, w.y) + fx_mul(q.z, w.z)),
        x: fx_half(fx_mul(q.w, w.x) + fx_mul(q.y, w.z) - fx_mul(q.z, w.y)),
        y: fx_half(fx_mul(q.w, w.y) + fx_mul(q.z, w.x) - fx_mul(q.x, w.z)),
        z: fx_half(fx_mul(q.w, w.z) + fx_mul(q.x, w.y) - fx_mul(q.y, w.x)),
    };
    r
}

/// Squared components of a bounded quaternion and their sum fit an i128.
proof fn lemma_qnorm_sq_bounds(q: Quaternion)
    requires
        q_bounded(q, QNORM_LIMIT as int),
    ensures
        0 <= q.w * q.w <= 16_000_000_000_000_000_000_000_000_000_000,
        0 <= q.x * q.x <= 16_000_000_000_000_000_000_000_000_000_000,
        0 <= q.y * q.y <= 16_000_000_000_000_000_000_000_000_000_000,
        0 <= q.z * q.z <= 16_000_000_000_000_000_000_000_000_000_000,
        0 <= spec_qnorm_sq(q) <= 64_000_000_000_000_000_000_000_000_000_000,
{
    assert(0 <= q.w * q.w <= 16_000_000_000_000_000_000_000_000_000_000
        && 0 <= q.x * q.x <= 16_000_000_000_000_000_000_000_000_000_000
        && 0 <= q.y * q.y <= 16_000_000_000_000_000_000_000_000_000_000
        && 0 <= q.z * q.z <= 16_000_000_000_000_000_000_000_000_000_000) by (nonlinear_arith)
        requires
            q_bounded(q, QNORM_LIMIT as int);
}

/// A squared component never exceeds the squared norm, so the component
/// magnitude never exceeds the integer norm.
proof fn lemma_comp_le_norm(a: int, n: int, r: int)
    requires
        a * a <= n,
        is_isqrt(n, r),
    ensures
        -r <= a <= r,
{
    assert(-r <= a <= r) by (nonlinear_arith)
        requires
            a * a <= n,
            0 <= r && r * r <= n < (r + 1) * (r + 1);
}

/// Magnitude bound on one rescaled product of quaternion components.
pub open spec fn qterm_bounded(v: int) -> bool {
    -4_000_000_000_001 <= v <= 4_000_000_000_001
}

/// The raw Hamilton product of bounded quaternions stays bounded: each of
/// its four terms is at most `QCOMP_LIMIT^2 / SCALE` plus rounding.
proof fn lemma_qmul_raw_bounded(a: Quaternion, b: Quaternion)
    requires
        q_bounded(a, QCOMP_LIMIT as int),
        q_bounded(b, QCOMP_LIMIT as int),
    ensures
        q_bounded(spec_qmul_raw(a, b), QNORM_LIMIT as int),
        qterm_bounded(spec_fx_mul(a.w as int, b.w as int)),
        qterm_bounded(spec_fx_mul(a.x as int, b.x as int)),
        qterm_bounded(spec_fx_mul(a.y as int, b.y as int)),
        qterm_bounded(spec_fx_mul(a.z as int, b.z as int)),
        qterm_bounded(spec_fx_mul(a.w as int, b.x as int)),
        qterm_bounded(spec_fx_mul(b.w as int, a.x as int)),
        qterm_bounded(spec_fx_mul(a.y as int, b.z as int)),
        qterm_bounded(spec_fx_mul(a.z as int, b.y as int)),
        qterm_bounded(spec_fx_mul(a.w as int, b.y as int)),
        qterm_bounded(spec_fx_mul(b.w as int, a.y as int)),
        qterm_bounded(spec_fx_mul(a.z as int, b.x as int)),
        qterm_bounded(spec_fx_mul(a.x as int, b.z as int)),
        qterm_bounded(spec_fx_mul(a.w as int, b.z as int)),
        qterm_bounded(spec_fx_mul(b.w as int, a.z as int)),
        qterm_bounded(spec_fx_mul(a.x as int, b.y as int)),
        qterm_bounded(spec_fx_mul(a.y as int, b.x as int)),
{
    lemma_fx_mul_qlim(a.w as int, b.w as int);
    lemma_fx_mul_qlim(a.x as int, b.x as int);
    lemma_fx_mul_qlim(a.y as int, b.y as int);
    lemma_fx_mul_qlim(a.z as int, b.z as int);
    lemma_fx_mul_qlim(a.w as int, b.x as int);
    lemma_fx_mul_qlim(b.w as int, a.x as int);
    lemma_fx_mul_qlim(a.y as int, b.z as int);
    lemma_fx_mul_qlim(a.z as int, b.y as int);
    lemma_fx_mul_qlim(a.w as int, b.y as int);
    lemma_fx_mul_qlim(b.w as int, a.y as int);
    lemma_fx_mul_qlim(a.z as int, b.x as int);
    lemma_fx_mul_qlim(a.x as int, b.z as int);
    lemma_fx_mul_qlim(a.w as int, b.z as int);
    lemma_fx_mul_qlim(b.w as int, a.z as int);
    lemma_fx_mul_qlim(a.x as int, b.y as int);
    lemma_fx_mul_qlim(a.y as int, b.x as int);
}

/// A rescaled product of two quaternion-bounded scalars is small.
proof fn lemma_fx_mul_qlim(a: int, b: int)
    requires
        -QCOMP_LIMIT <= a <= QCOMP_LIMIT,
        -QCOMP_LIMIT <= b <= QCOMP_LIMIT,
    ensures
        -4_000_000_000_001int <= spec_fx_mul(a, b) <= 4_000_000_000_001int,
{
    crate::numerics::fxp::lemma_fx_mul_bound(
        a,
        b,
        QCOMP_LIMIT as int,
        QCOMP_LIMIT as int,
        4_000_000_000_000_000_000int,
    );
}

} // verus!
