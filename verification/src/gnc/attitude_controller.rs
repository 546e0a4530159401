//! The geometric attitude controller: a bounded control torque from the
//! current and desired attitude.
//!
//! The desired frame is the radial-transverse-normal frame of the orbit;
//! the attitude error is the vee of the skew part of the error rotation;
//! the raw torque is I (-kp e_R - kd e_w); and a smooth saturation scales
//! any torque beyond the configured maximum by
//! max (1 - exp(-|t|/max)) / |t|, preserving its direction.  The final
//! two scalings truncate toward zero, so the returned magnitude never
//! exceeds the maximum.

use vstd::prelude::*;
use crate::numerics::fxp::{
    fits_i64, fx_div, fx_div_trunc, fx_half, fx_mul_p12, fx_mul_trunc, is_isqrt,
    lemma_fx_div_bounds, lemma_fx_mul_bound, lemma_fx_mul_zero, lemma_sqrt_floor,
    lemma_trunc_div_mag, spec_fx_div, spec_fx_div_trunc, spec_fx_half, spec_fx_mul_p12,
    spec_fx_mul_trunc, SCALE, SCALE_P12,
};
use crate::numerics::mat3::{
    can_matmul, m_bounded, spec_matmul, spec_matvec, spec_transpose, Mat3,
    MAT_INV_LIMIT,
};
use crate::numerics::quaternion::{q_bounded, spec_q_to_matrix, Quaternion};
use crate::numerics::vec3::{
    bounded, can_cross, lemma_comp_within_norm, lemma_dot_bound_by, spec_cross, spec_norm,
    spec_norm_sq, spec_vadd, spec_vscale, spec_vsub, Vec3, COMP_LIMIT,
};
use crate::physics::attitude::{lemma_cross_fits, lemma_rot_entry_bounds, OMEGA_LIMIT, QATT_LIMIT};
use crate::physics::drag::VEL_LIMIT;
use crate::physics::environment::{exp_neg, spec_exp_neg};
use crate::physics::gravity::{MIN_RADIUS, POS_LIMIT};

verus! {

/// The saturation bound on the returned torque: one newton-metre, fixed
/// point.
pub const MAX_TORQUE: i64 = 1_000_000;

/// Largest gain the controller accepts (one thousand, fixed point).
pub const GAIN_LIMIT: i64 = 1_000_000_000;

pub struct GeometricAttitudeController {
    pub kp: i64,
    pub kd: i64,
    pub inertia: Mat3,
}

/// The desired frame as a matrix with columns r-hat, s-hat, w-hat.
pub open spec fn spec_rsw_frame(r: Vec3, v: Vec3) -> Mat3 {
    let rn = spec_norm(r);
    let ru = Vec3 {
        x: spec_fx_div(r.x as int, rn) as i64,
        y: spec_fx_div(r.y as int, rn) as i64,
        z: spec_fx_div(r.z as int, rn) as i64,
    };
    let h = spec_cross(r, v);
    let hn = spec_norm(h);
    let wu = Vec3 {
        x: spec_fx_div(h.x as int, hn) as i64,
        y: spec_fx_div(h.y as int, hn) as i64,
        z: spec_fx_div(h.z as int, hn) as i64,
    };
    let su = spec_cross(wu, ru);
    Mat3 {
        r0: Vec3 { x: ru.x, y: su.x, z: wu.x },
        r1: Vec3 { x: ru.y, y: su.y, z: wu.y },
        r2: Vec3 { x: ru.z, y: su.z, z: wu.z },
    }
}

/// The error rotation R_current^T R_desired.
pub open spec fn spec_error_mat(q: Quaternion, rsw: Mat3) -> Mat3 {
    spec_matmul(spec_transpose(spec_q_to_matrix(q)), rsw)
}

/// The vee of the skew part of the error rotation.
pub open spec fn spec_error_vec(m: Mat3) -> Vec3 {
    Vec3 {
        x: spec_fx_half(m.r1.z - m.r2.y) as i64,
        y: spec_fx_half(m.r2.x - m.r0.z) as i64,
        z: spec_fx_half(m.r0.y - m.r1.x) as i64,
    }
}

/// The desired body rate: the orbital rate about the negative orbit
/// normal, carried through the error rotation.
pub open spec fn spec_w_desired(m: Mat3, rate: int) -> Vec3 {
    spec_matvec(m, Vec3 { x: 0i64, y: 0i64, z: (-rate) as i64 })
}

/// The raw control law I (-kp e_R - kd e_w).
pub open spec fn spec_raw_torque(c: GeometricAttitudeController, er: Vec3, ew: Vec3) -> Vec3 {
    spec_matvec(
        c.inertia,
        spec_vadd(spec_vscale(er, -(c.kp as int)), spec_vscale(ew, -(c.kd as int))),
    )
}

/// Smooth saturation: torques beyond the maximum are scaled by
/// max (1 - exp(-|t|/max)) / |t|, the scalings truncating toward zero
/// (the exponential carries twelve decimal places).
pub open spec fn spec_saturate(t: Vec3) -> Vec3 {
    let mag = spec_norm(t);
    if mag > MAX_TORQUE {
        let ratio = spec_fx_div(mag, MAX_TORQUE as int);
        let shrink = spec_fx_mul_p12(MAX_TORQUE as int, SCALE_P12 - spec_exp_neg(ratio));
        let k = spec_fx_div_trunc(shrink, mag);
        Vec3 {
            x: spec_fx_mul_trunc(t.x as int, k) as i64,
            y: spec_fx_mul_trunc(t.y as int, k) as i64,
            z: spec_fx_mul_trunc(t.z as int, k) as i64,
        }
    } else {
        t
    }
}

/// The full controller: error frame, error vector, rate error, raw
/// torque, saturation.
pub open spec fn spec_control_torque(
    c: GeometricAttitudeController,
    r: Vec3,
    v: Vec3,
    q: Quaternion,
    w: Vec3,
) -> Vec3 {
    let rsw = spec_rsw_frame(r, v);
    let m = spec_error_mat(q, rsw);
    let er = spec_error_vec(m);
    let rate = spec_fx_div(spec_norm(v), spec_norm(r));
    let ew = spec_vsub(w, spec_w_desired(m, rate));
    spec_saturate(spec_raw_torque(c, er, ew))
}

/// Inputs the controller accepts: an orbit-like position and velocity
/// whose angular momentum is nonzero and in range, a near-unit attitude
/// quaternion, a bounded body rate, and bounded gains and inertia.
pub open spec fn can_control_torque(
    c: GeometricAttitudeController,
    r: Vec3,
    v: Vec3,
    q: Quaternion,
    w: Vec3,
) -> bool {
    &&& bounded(r, POS_LIMIT as int)
    &&& spec_norm(r) >= MIN_RADIUS
    &&& bounded(v, VEL_LIMIT as int)
    &&& can_cross(r, v)
    &&& bounded(spec_cross(r, v), COMP_LIMIT as int)
    &&& spec_norm_sq(spec_cross(r, v)) > 0
    &&& q_bounded(q, QATT_LIMIT as int)
    &&& bounded(w, OMEGA_LIMIT as int)
    &&& m_bounded(c.inertia, MAT_INV_LIMIT as int)
    &&& 0 <= c.kp <= GAIN_LIMIT
    &&& 0 <= c.kd <= GAIN_LIMIT
}

impl GeometricAttitudeController {
    pub fn new(kp: i64, kd: i64, inertia: Mat3) -> (r: GeometricAttitudeController)
        ensures
            r.kp == kp,
            r.kd == kd,
            r.inertia == inertia,
    {
        GeometricAttitudeController { kp, kd, inertia }
    }

    /// The control torque for the current state; its magnitude never
    /// exceeds the saturation bound.
    pub fn compute_control_torque(
        &self,
        r_gcrs: &Vec3,
        v_gcrs: &Vec3,
        q_gcrs2body: &Quaternion,
        w_body: &Vec3,
    ) -> (t: Vec3)
        requires
            can_control_torque(*self, *r_gcrs, *v_gcrs, *q_gcrs2body, *w_body),
        ensures
            t == spec_control_torque(*self, *r_gcrs, *v_gcrs, *q_gcrs2body, *w_body),
            spec_norm_sq(t) <= MAX_TORQUE * (MAX_TORQUE + 2),
    {
        let rn = r_gcrs.norm();
        proof {
            lemma_comp_within_norm(*r_gcrs, rn as int);
            lemma_fx_div_bounds(r_gcrs.x as int, rn as int);
            lemma_fx_div_bounds(r_gcrs.y as int, rn as int);
            lemma_fx_div_bounds(r_gcrs.z as int, rn as int);
        }
        let ru = Vec3 {
            x: fx_div(r_gcrs.x, rn),
            y: fx_div(r_gcrs.y, rn),
            z: fx_div(r_gcrs.z, rn),
        };
        let h = r_gcrs.cross(v_gcrs);
        let hn = h.norm();
        proof {
            assert(hn >= 1) by (nonlinear_arith)
                requires
                    is_isqrt(spec_norm_sq(h), hn as int),
                    spec_norm_sq(h) > 0;
            lemma_comp_within_norm(h, hn as int);
            lemma_fx_div_bounds(h.x as int, hn as int);
            lemma_fx_div_bounds(h.y as int, hn as int);
            lemma_fx_div_bounds(h.z as int, hn as int);
        }
        let wu = Vec3 { x: fx_div(h.x, hn), y: fx_div(h.y, hn), z: fx_div(h.z, hn) };
        proof {
            lemma_cross_fits(wu, ru, SCALE as int, SCALE as int, 1_000_000_000_000int);
        }
        let su = wu.cross(&ru);
        let rsw = Mat3::from_columns(&ru, &su, &wu);
        let rot = q_gcrs2body.to_rotation_matrix();
        let rot_t = rot.transpose();
        proof {
            lemma_rot_entry_bounds(*q_gcrs2body);
            lemma_matmul_fits(rot_t, rsw, 20_000_000int, 2_000_002int, 120_000_120_000_000int);
        }
        let err = rot_t.matmul(&rsw);
        let er = Vec3 {
            x: fx_half(err.r1.z - err.r2.y),
            y: fx_half(err.r2.x - err.r0.z),
            z: fx_half(err.r0.y - err.r1.x),
        };
        let vn = v_gcrs.norm();
        proof {
            assert(spec_norm_sq(*v_gcrs) <= 30_000_000_000_000_000_000_000int)
                by (nonlinear_arith)
                requires
                    bounded(*v_gcrs, VEL_LIMIT as int);
            assert(vn <= 180_000_000_000i64) by (nonlinear_arith)
                requires
                    is_isqrt(spec_norm_sq(*v_gcrs), vn as int),
                    spec_norm_sq(*v_gcrs) <= 30_000_000_000_000_000_000_000int;
            lemma_fx_div_bounds(vn as int, rn as int);
        }
        let rate = fx_div(vn, rn);
        proof {
            lemma_dot_bound_by(
                err.r0,
                Vec3 { x: 0i64, y: 0i64, z: ((-(rate as int)) as i64) },
                130_000_000int,
                SCALE as int,
                390_000_000_000_000int,
            );
            lemma_dot_bound_by(
                err.r1,
                Vec3 { x: 0i64, y: 0i64, z: ((-(rate as int)) as i64) },
                130_000_000int,
                SCALE as int,
                390_000_000_000_000int,
            );
            lemma_dot_bound_by(
                err.r2,
                Vec3 { x: 0i64, y: 0i64, z: ((-(rate as int)) as i64) },
                130_000_000int,
                SCALE as int,
                390_000_000_000_000int,
            );
        }
        let wdes = err.matvec(&Vec3 { x: 0, y: 0, z: -rate });
        let ew = w_body.sub(&wdes);
        proof {
            lemma_scale_err(er, self.kp as int);
            lemma_scale_err(ew, self.kd as int);
        }
        let u = er.scale(-self.kp).add(&ew.scale(-self.kd));
        proof {
            lemma_dot_bound_by(
                self.inertia.r0,
                u,
                MAT_INV_LIMIT as int,
                1_000_000_000_004int,
                30_000_000_000_120_000_000_000int,
            );
            lemma_dot_bound_by(
                self.inertia.r1,
                u,
                MAT_INV_LIMIT as int,
                1_000_000_000_004int,
                30_000_000_000_120_000_000_000int,
            );
            lemma_dot_bound_by(
                self.inertia.r2,
                u,
                MAT_INV_LIMIT as int,
                1_000_000_000_004int,
                30_000_000_000_120_000_000_000int,
            );
        }
        let raw = self.inertia.matvec(&u);
        saturate(&raw)
    }
}

/// Applies the smooth saturation to a raw torque.
fn saturate(t: &Vec3) -> (r: Vec3)
    requires
        bounded(*t, 31_000_000_000_000_000int),
    ensures
        r == spec_saturate(*t),
        spec_norm_sq(r) <= MAX_TORQUE * (MAX_TORQUE + 2),
{
    let mag = t.norm();
    if mag > MAX_TORQUE {
        proof {
            lemma_ratio_exact(mag as int);
        }
        let ratio = fx_div(mag, MAX_TORQUE);
        let e = exp_neg(ratio);
        proof {
            lemma_sat_shrink((SCALE_P12 - e) as int);
        }
        let shrink = fx_mul_p12(MAX_TORQUE, SCALE_P12 - e);
        proof {
            lemma_shrink_fits(shrink as int, mag as int);
        }
        let k = fx_div_trunc(shrink, mag);
        proof {
            lemma_out_fits(t.x as int, k as int);
            lemma_out_fits(t.y as int, k as int);
            lemma_out_fits(t.z as int, k as int);
        }
        let out = Vec3 {
            x: fx_mul_trunc(t.x, k),
            y: fx_mul_trunc(t.y, k),
            z: fx_mul_trunc(t.z, k),
        };
        proof {
            lemma_saturated_norm(*t, out, k as int, mag as int);
        }
        out
    } else {
        proof {
            assert(spec_norm_sq(*t) <= MAX_TORQUE * (MAX_TORQUE + 2)) by (nonlinear_arith)
                requires
                    is_isqrt(spec_norm_sq(*t), mag as int),
                    0 <= mag <= MAX_TORQUE,
                    MAX_TORQUE == 1_000_000i64;
        }
        *t
    }
}

/// Law: with a zero attitude error and a zero rate error the controller
/// commands exactly zero torque.
pub proof fn lemma_zero_error_zero_torque(
    c: GeometricAttitudeController,
    er: Vec3,
    ew: Vec3,
)
    requires
        er == (Vec3 { x: 0i64, y: 0i64, z: 0i64 }),
        ew == (Vec3 { x: 0i64, y: 0i64, z: 0i64 }),
    ensures
        spec_saturate(spec_raw_torque(c, er, ew)) == (Vec3 { x: 0i64, y: 0i64, z: 0i64 }),
{
    lemma_fx_mul_zero(-(c.kp as int));
    lemma_fx_mul_zero(-(c.kd as int));
    let u = spec_vadd(spec_vscale(er, -(c.kp as int)), spec_vscale(ew, -(c.kd as int)));
    assert(u == (Vec3 { x: 0i64, y: 0i64, z: 0i64 }));
    let raw = spec_raw_torque(c, er, ew);
    assert(raw.x == 0 && raw.y == 0 && raw.z == 0) by {
        lemma_dot_zero(c.inertia.r0);
        lemma_dot_zero(c.inertia.r1);
        lemma_dot_zero(c.inertia.r2);
    };
    lemma_sqrt_floor(0, 0);
}

/// Law: a perfectly aligned body frame (the error rotation is symmetric,
/// so its skew part vanishes) together with a body rate equal to the
/// desired rate makes the commanded torque exactly zero.
pub proof fn lemma_aligned_zero_torque(
    c: GeometricAttitudeController,
    r: Vec3,
    v: Vec3,
    q: Quaternion,
    w: Vec3,
)
    requires
        spec_error_mat(q, spec_rsw_frame(r, v)).r1.z == spec_error_mat(
            q,
            spec_rsw_frame(r, v),
        ).r2.y,
        spec_error_mat(q, spec_rsw_frame(r, v)).r2.x == spec_error_mat(
            q,
            spec_rsw_frame(r, v),
        ).r0.z,
        spec_error_mat(q, spec_rsw_frame(r, v)).r0.y == spec_error_mat(
            q,
            spec_rsw_frame(r, v),
        ).r1.x,
        w == spec_w_desired(
            spec_error_mat(q, spec_rsw_frame(r, v)),
            spec_fx_div(spec_norm(v), spec_norm(r)),
        ),
    ensures
        spec_control_torque(c, r, v, q, w) == (Vec3 { x: 0i64, y: 0i64, z: 0i64 }),
{
    let m = spec_error_mat(q, spec_rsw_frame(r, v));
    let er = spec_error_vec(m);
    assert(er == (Vec3 { x: 0i64, y: 0i64, z: 0i64 }));
    let rate = spec_fx_div(spec_norm(v), spec_norm(r));
    let ew = spec_vsub(w, spec_w_desired(m, rate));
    assert(ew == (Vec3 { x: 0i64, y: 0i64, z: 0i64 }));
    lemma_zero_error_zero_torque(c, er, ew);
}

/// The rescaled dot product of any row with the zero vector is zero.
proof fn lemma_dot_zero(row: Vec3)
    ensures
        crate::numerics::vec3::spec_dot(row, Vec3 { x: 0i64, y: 0i64, z: 0i64 }) == 0,
{
    assert(row.x * 0 == 0 && row.y * 0 == 0 && row.z * 0 == 0) by (nonlinear_arith);
}

/// Dividing a magnitude by the unit-valued maximum returns it unchanged.
proof fn lemma_ratio_exact(mag: int)
    requires
        0 <= mag,
    ensures
        spec_fx_div(mag, MAX_TORQUE as int) == mag,
{
    let s = SCALE as int;
    assert(2 * mag * s + s == mag * (2 * s) + s) by (nonlinear_arith);
    vstd::arithmetic::div_mod::lemma_fundamental_div_mod_converse_div(
        2 * mag * s + s,
        2 * s,
        mag,
        s,
    );
}

/// Scaling the maximum torque by a twelve-place unit factor keeps it
/// between zero and the maximum.
proof fn lemma_sat_shrink(one: int)
    requires
        0 <= one <= SCALE_P12,
    ensures
        0 <= spec_fx_mul_p12(MAX_TORQUE as int, one) <= MAX_TORQUE,
{
    let s = SCALE_P12 as int;
    assert(0 <= 2 * (MAX_TORQUE as int) * one) by (nonlinear_arith)
        requires
            0 <= one;
    vstd::arithmetic::div_mod::lemma_div_pos_is_pos(2 * (MAX_TORQUE as int) * one + s, 2 * s);
    assert(2 * (MAX_TORQUE as int) * one + s <= (MAX_TORQUE as int) * (2 * s) + s)
        by (nonlinear_arith)
        requires
            0 <= one <= s;
    assert((MAX_TORQUE as int) * (2 * s) + s == (2 * s) * (MAX_TORQUE as int) + s)
        by (nonlinear_arith);
    vstd::arithmetic::div_mod::lemma_fundamental_div_mod_converse_div(
        (MAX_TORQUE as int) * (2 * s) + s,
        2 * s,
        MAX_TORQUE as int,
        s,
    );
    vstd::arithmetic::div_mod::lemma_div_is_ordered(
        2 * (MAX_TORQUE as int) * one + s,
        (MAX_TORQUE as int) * (2 * s) + s,
        2 * s,
    );
}

/// The truncated shrink factor is at most one whole unit and nonnegative.
proof fn lemma_shrink_fits(shrink: int, mag: int)
    requires
        0 <= shrink <= SCALE,
        SCALE < mag,
    ensures
        0 <= spec_fx_div_trunc(shrink, mag) <= SCALE,
        fits_i64(spec_fx_div_trunc(shrink, mag)),
        spec_fx_div_trunc(shrink, mag) * mag <= SCALE * SCALE,
{
    lemma_trunc_div_mag(shrink * (SCALE as int), mag);
    assert(0 <= shrink * (SCALE as int) <= (SCALE as int) * (SCALE as int)) by (nonlinear_arith)
        requires
            0 <= shrink <= SCALE as int;
    let k = spec_fx_div_trunc(shrink, mag);
    assert(k <= SCALE as int) by (nonlinear_arith)
        requires
            0 <= k,
            k * mag <= shrink * (SCALE as int),
            shrink * (SCALE as int) <= (SCALE as int) * (SCALE as int),
            SCALE < mag;
    assert(k * mag <= SCALE * SCALE);
}

/// A component scaled by a sub-unit truncating factor keeps its range.
proof fn lemma_out_fits(x: int, k: int)
    requires
        -31_000_000_000_000_000 <= x <= 31_000_000_000_000_000,
        0 <= k <= SCALE,
    ensures
        fits_i64(spec_fx_mul_trunc(x, k)),
        -31_000_000_000_000_000 <= spec_fx_mul_trunc(x, k) <= 31_000_000_000_000_000,
{
    lemma_trunc_div_mag(x * k, SCALE as int);
    let q = spec_fx_mul_trunc(x, k);
    if x * k >= 0 {
        assert(q <= 31_000_000_000_000_000int && -31_000_000_000_000_000int <= q)
            by (nonlinear_arith)
            requires
                0 <= q,
                q * (SCALE as int) <= x * k,
                -31_000_000_000_000_000 <= x <= 31_000_000_000_000_000,
                0 <= k <= SCALE as int,
                x * k >= 0;
    } else {
        assert(q <= 31_000_000_000_000_000int && -31_000_000_000_000_000int <= q)
            by (nonlinear_arith)
            requires
                q <= 0,
                x * k <= q * (SCALE as int),
                -31_000_000_000_000_000 <= x <= 31_000_000_000_000_000,
                0 <= k <= SCALE as int,
                x * k < 0;
    }
}

/// The saturated torque's squared magnitude stays within the bound: the
/// truncating scalings shrink each component at least in the ratio of the
/// maximum to the magnitude.
proof fn lemma_saturated_norm(t: Vec3, out: Vec3, k: int, mag: int)
    requires
        is_isqrt(spec_norm_sq(t), mag),
        SCALE < mag,
        0 <= k,
        k * mag <= SCALE * SCALE,
        out.x == spec_fx_mul_trunc(t.x as int, k),
        out.y == spec_fx_mul_trunc(t.y as int, k),
        out.z == spec_fx_mul_trunc(t.z as int, k),
    ensures
        spec_norm_sq(out) <= MAX_TORQUE * (MAX_TORQUE + 2),
{
    let s = SCALE as int;
    lemma_comp_sq_shrink(t.x as int, out.x as int, k);
    lemma_comp_sq_shrink(t.y as int, out.y as int, k);
    lemma_comp_sq_shrink(t.z as int, out.z as int, k);
    assert(0 <= spec_norm_sq(out) && 0 <= spec_norm_sq(t)) by (nonlinear_arith);
    assert(spec_norm_sq(out) * (s * s) <= spec_norm_sq(t) * (k * k)) by (nonlinear_arith)
        requires
            out.x * out.x * (s * s) <= t.x * t.x * (k * k),
            out.y * out.y * (s * s) <= t.y * t.y * (k * k),
            out.z * out.z * (s * s) <= t.z * t.z * (k * k);
    assert(spec_norm_sq(out) * (s * s) * (mag * mag) <= (mag + 1) * (mag + 1) * (s * s) * (s
        * s)) by (nonlinear_arith)
        requires
            spec_norm_sq(out) * (s * s) <= spec_norm_sq(t) * (k * k),
            spec_norm_sq(t) < (mag + 1) * (mag + 1),
            0 <= k,
            0 <= spec_norm_sq(t),
            0 <= spec_norm_sq(out),
            k * mag <= s * s,
            0 < s,
            0 < mag;
    assert(spec_norm_sq(out) <= (s + 1) * (s + 1) - 1) by (nonlinear_arith)
        requires
            spec_norm_sq(out) * (s * s) * (mag * mag) <= (mag + 1) * (mag + 1) * (s * s) * (s
                * s),
            s < mag,
            0 < s,
            0 <= spec_norm_sq(out);
}

/// Squares of a truncated scaling stay ordered against the exact ratio.
proof fn lemma_comp_sq_shrink(x: int, o: int, k: int)
    requires
        0 <= k,
        o == spec_fx_mul_trunc(x, k),
    ensures
        o * o * ((SCALE as int) * (SCALE as int)) <= x * x * (k * k),
{
    let s = SCALE as int;
    lemma_trunc_div_mag(x * k, s);
    if x * k >= 0 {
        assert(o * o * (s * s) <= x * x * (k * k)) by (nonlinear_arith)
            requires
                0 <= o,
                o * s <= x * k,
                0 < s;
    } else {
        assert(o * o * (s * s) <= x * x * (k * k)) by (nonlinear_arith)
            requires
                o <= 0,
                x * k <= o * s,
                0 < s;
    }
}

/// Scaled error vectors stay well within range.
proof fn lemma_scale_err(e: Vec3, g: int)
    requires
        bounded(e, 500_000_000int),
        0 <= g <= GAIN_LIMIT,
    ensures
        crate::numerics::vec3::can_vscale(e, -g),
        bounded(spec_vscale(e, -g), 500_000_000_002int),
{
    lemma_fx_mul_bound(e.x as int, -g, 500_000_000int, GAIN_LIMIT as int,
        500_000_000_000_000_000int);
    lemma_fx_mul_bound(e.y as int, -g, 500_000_000int, GAIN_LIMIT as int,
        500_000_000_000_000_000int);
    lemma_fx_mul_bound(e.z as int, -g, 500_000_000int, GAIN_LIMIT as int,
        500_000_000_000_000_000int);
}

/// All nine dot products of a matrix product fit when entries are small,
/// and the product's entries are bounded accordingly.
proof fn lemma_matmul_fits(a: Mat3, b: Mat3, la: int, lb: int, m: int)
    requires
        m_bounded(a, la),
        m_bounded(b, lb),
        0 <= la <= 100_000_000,
        0 <= lb <= 100_000_000,
        3 * (la * lb) <= m,
        m <= 100_000_000_000_000_000int,
    ensures
        can_matmul(a, b),
        m_bounded(spec_matmul(a, b), m / (SCALE as int) + 1),
{
    let c0 = Vec3 { x: b.r0.x, y: b.r1.x, z: b.r2.x };
    let c1 = Vec3 { x: b.r0.y, y: b.r1.y, z: b.r2.y };
    let c2 = Vec3 { x: b.r0.z, y: b.r1.z, z: b.r2.z };
    lemma_dot_bound_by(a.r0, c0, la, lb, m);
    lemma_dot_bound_by(a.r1, c0, la, lb, m);
    lemma_dot_bound_by(a.r2, c0, la, lb, m);
    lemma_dot_bound_by(a.r0, c1, la, lb, m);
    lemma_dot_bound_by(a.r1, c1, la, lb, m);
    lemma_dot_bound_by(a.r2, c1, la, lb, m);
    lemma_dot_bound_by(a.r0, c2, la, lb, m);
    lemma_dot_bound_by(a.r1, c2, la, lb, m);
    lemma_dot_bound_by(a.r2, c2, la, lb, m);
}

} // verus!
