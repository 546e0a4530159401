//! Rotational dynamics: gravity-gradient torque, Euler's rigid-body
//! equation, and the quaternion kinematic derivative.

use vstd::prelude::*;
use crate::constants::MU_EARTH;
use crate::models::state::State;
use crate::numerics::fxp::{
    div_floor, fits_i64, is_isqrt, fx_div, lemma_fx_div_bounds, lemma_fx_mul_bound,
    lemma_nearest_div_bound, spec_fx_div, SCALE,
};
use crate::numerics::mat3::{
    can_inverse, can_matvec, m_bounded, spec_inverse, spec_matvec, spec_transpose,
    MAT_INV_LIMIT,
};
use crate::numerics::quaternion::{
    compute_quaternion_derivative, q_bounded, spec_q_derivative, spec_q_to_matrix, Quaternion,
    QCOMP_LIMIT,
};
use crate::numerics::vec3::{
    bounded, can_cross, lemma_comp_within_norm, lemma_dot_bound_by, spec_cross, spec_dot,
    spec_norm, spec_norm_sq, spec_vsub, Vec3, COMP_LIMIT,
};
use crate::physics::gravity::{MIN_RADIUS, POS_LIMIT};

verus! {

/// Attitude quaternions fed to the torque model stay within twice unit
/// magnitude per component (drifting unit quaternions stay near one).
pub const QATT_LIMIT: i64 = 2_000_000;

/// Largest body angular rate the rotational dynamics accept: 100 rad/s,
/// fixed point.
pub const OMEGA_LIMIT: i64 = 100_000_000;

/// The gravity-gradient torque never exceeds this bound under the
/// preconditions, fixed point.
pub const GG_TORQUE_LIMIT: i64 = 300_000_000_001;

/// Largest commanded external torque the dynamics accept, fixed point.
pub const EXT_TORQUE_LIMIT: i64 = 1_000_000_000_000;

/// Inputs on which the gravity-gradient torque is defined.
pub open spec fn can_torque(s: State) -> bool {
    &&& bounded(s.position, POS_LIMIT as int)
    &&& spec_norm(s.position) >= MIN_RADIUS
    &&& q_bounded(s.quaternion, QATT_LIMIT as int)
    &&& m_bounded(s.inertia_tensor, MAT_INV_LIMIT as int)
}

/// Gravity-gradient torque 3 mu / (2 r^3) * (z_b x I z_b), where z_b is
/// the radial unit vector rotated into the body frame; the final division
/// by 2 r^3 is rounded to nearest.
pub open spec fn spec_gg_torque(s: State) -> Vec3 {
    let r = spec_norm(s.position);
    let ru = Vec3 {
        x: spec_fx_div(s.position.x as int, r) as i64,
        y: spec_fx_div(s.position.y as int, r) as i64,
        z: spec_fx_div(s.position.z as int, r) as i64,
    };
    let zb = spec_matvec(spec_transpose(spec_q_to_matrix(s.quaternion)), ru);
    let h = spec_matvec(s.inertia_tensor, zb);
    let c = spec_cross(zb, h);
    let r_m = r / (SCALE as int);
    let den2 = 2 * (r_m * r_m * r_m);
    Vec3 {
        x: ((2 * (3 * MU_EARTH * c.x) + den2) / (2 * den2)) as i64,
        y: ((2 * (3 * MU_EARTH * c.y) + den2) / (2 * den2)) as i64,
        z: ((2 * (3 * MU_EARTH * c.z) + den2) / (2 * den2)) as i64,
    }
}

/// The gravity-gradient torque on `state`.
pub fn calculate_torque(state: &State) -> (r: Vec3)
    requires
        can_torque(*state),
    ensures
        r == spec_gg_torque(*state),
        bounded(r, GG_TORQUE_LIMIT as int),
{
    let p = state.position;
    let rm = p.norm();
    proof {
        assert(spec_norm_sq(p) <= 3_000_000_000_000_000_000_000_000_000_000int)
            by (nonlinear_arith)
            requires
                bounded(p, POS_LIMIT as int);
        assert(rm <= 1_800_000_000_000_000i64) by (nonlinear_arith)
            requires
                is_isqrt(spec_norm_sq(p), rm as int),
                spec_norm_sq(p) <= 3_000_000_000_000_000_000_000_000_000_000int;
        lemma_comp_within_norm(p, rm as int);
        lemma_fx_div_bounds(p.x as int, rm as int);
        lemma_fx_div_bounds(p.y as int, rm as int);
        lemma_fx_div_bounds(p.z as int, rm as int);
    }
    let ru = Vec3 { x: fx_div(p.x, rm), y: fx_div(p.y, rm), z: fx_div(p.z, rm) };
    let rot = state.quaternion.to_rotation_matrix();
    let rot_t = rot.transpose();
    proof {
        lemma_rot_entry_bounds(state.quaternion);
        lemma_dot_bound_by(rot_t.r0, ru, 20_000_000int, SCALE as int, 60_000_000_000_000int);
        lemma_dot_bound_by(rot_t.r1, ru, 20_000_000int, SCALE as int, 60_000_000_000_000int);
        lemma_dot_bound_by(rot_t.r2, ru, 20_000_000int, SCALE as int, 60_000_000_000_000int);
    }
    let zb = rot_t.matvec(&ru);
    let inertia = state.inertia_tensor;
    proof {
        lemma_dot_bound_by(
            inertia.r0,
            zb,
            MAT_INV_LIMIT as int,
            60_000_001int,
            1_800_000_030_000_000_000int,
        );
        lemma_dot_bound_by(
            inertia.r1,
            zb,
            MAT_INV_LIMIT as int,
            60_000_001int,
            1_800_000_030_000_000_000int,
        );
        lemma_dot_bound_by(
            inertia.r2,
            zb,
            MAT_INV_LIMIT as int,
            60_000_001int,
            1_800_000_030_000_000_000int,
        );
    }
    let h = inertia.matvec(&zb);
    proof {
        lemma_cross_fits(zb, h, 60_000_001int, 1_800_000_030_001int, 110_000_000_000_000_000_000int);
    }
    let c = zb.cross(&h);
    let r_m = ((rm as u64) / 1_000_000) as i64;
    proof {
        assert(1_000_000 <= r_m <= 1_800_000_000);
        assert(1_000_000_000_000i128 <= (r_m as i128) * (r_m as i128)
            <= 3_240_000_000_000_000_000i128) by (nonlinear_arith)
            requires
                1_000_000 <= r_m as i128 <= 1_800_000_000i128;
        assert(1_000_000_000_000_000_000i128 <= (r_m as i128) * (r_m as i128) * (r_m as i128)
            <= 6_000_000_000_000_000_000_000_000_000i128) by (nonlinear_arith)
            requires
                1_000_000 <= r_m as i128 <= 1_800_000_000i128,
                1_000_000_000_000i128 <= (r_m as i128) * (r_m as i128)
                    <= 3_240_000_000_000_000_000i128;
    }
    let den2: i128 = 2 * ((r_m as i128) * (r_m as i128) * (r_m as i128));
    proof {
        lemma_gg_comp(c.x as int, den2 as int);
        lemma_gg_comp(c.y as int, den2 as int);
        lemma_gg_comp(c.z as int, den2 as int);
    }
    let tx = div_floor(2 * (3 * (MU_EARTH as i128) * (c.x as i128)) + den2, 2 * den2);
    let ty = div_floor(2 * (3 * (MU_EARTH as i128) * (c.y as i128)) + den2, 2 * den2);
    let tz = div_floor(2 * (3 * (MU_EARTH as i128) * (c.z as i128)) + den2, 2 * den2);
    Vec3 { x: tx as i64, y: ty as i64, z: tz as i64 }
}

/// Inputs on which the angular acceleration is defined: an invertible
/// bounded inertia tensor, a bounded rate, and either a bounded commanded
/// torque or the inputs of the gravity-gradient default.
pub open spec fn can_angular_acceleration(s: State, t: Option<Vec3>) -> bool {
    &&& bounded(s.angular_velocity, OMEGA_LIMIT as int)
    &&& m_bounded(s.inertia_tensor, MAT_INV_LIMIT as int)
    &&& can_inverse(s.inertia_tensor)
    &&& m_bounded(spec_inverse(s.inertia_tensor), COMP_LIMIT as int)
    &&& match t {
        Some(v) => bounded(v, EXT_TORQUE_LIMIT as int),
        None => can_torque(s),
    }
    &&& fits_i64(spec_dot(spec_inverse(s.inertia_tensor).r0, spec_euler_diff(s, t)))
    &&& fits_i64(spec_dot(spec_inverse(s.inertia_tensor).r1, spec_euler_diff(s, t)))
    &&& fits_i64(spec_dot(spec_inverse(s.inertia_tensor).r2, spec_euler_diff(s, t)))
}

/// The applied torque minus the gyroscopic term w x (I w).
pub open spec fn spec_euler_diff(s: State, t: Option<Vec3>) -> Vec3 {
    let torque = match t {
        Some(v) => v,
        None => spec_gg_torque(s),
    };
    let iw = spec_matvec(s.inertia_tensor, s.angular_velocity);
    let gyro = spec_cross(s.angular_velocity, iw);
    spec_vsub(torque, gyro)
}

/// Euler's rigid-body equation: I^-1 (torque - w x I w).
pub open spec fn spec_angular_acceleration(s: State, t: Option<Vec3>) -> Vec3 {
    spec_matvec(spec_inverse(s.inertia_tensor), spec_euler_diff(s, t))
}

/// Angular acceleration of the body under the given external torque, or
/// under the gravity-gradient torque when none is commanded.
pub fn angular_acceleration(state: &State, external_torque: Option<&Vec3>) -> (r: Vec3)
    requires
        can_angular_acceleration(
            *state,
            match external_torque {
                Some(v) => Some(*v),
                None => None,
            },
        ),
    ensures
        r == spec_angular_acceleration(
            *state,
            match external_torque {
                Some(v) => Some(*v),
                None => None,
            },
        ),
{
    let torque = match external_torque {
        Some(t) => *t,
        None => calculate_torque(state),
    };
    let w = state.angular_velocity;
    let inertia = state.inertia_tensor;
    proof {
        lemma_dot_bound_by(
            inertia.r0,
            w,
            MAT_INV_LIMIT as int,
            OMEGA_LIMIT as int,
            3_000_000_000_000_000_000int,
        );
        lemma_dot_bound_by(
            inertia.r1,
            w,
            MAT_INV_LIMIT as int,
            OMEGA_LIMIT as int,
            3_000_000_000_000_000_000int,
        );
        lemma_dot_bound_by(
            inertia.r2,
            w,
            MAT_INV_LIMIT as int,
            OMEGA_LIMIT as int,
            3_000_000_000_000_000_000int,
        );
    }
    let iw = inertia.matvec(&w);
    proof {
        lemma_cross_fits(w, iw, OMEGA_LIMIT as int, 3_000_000_000_001int, 300_000_000_000_100_000_000int);
    }
    let gyro = w.cross(&iw);
    let diff = torque.sub(&gyro);
    let inv = inertia.inverse();
    proof {
        assert(can_matvec(inv, diff));
    }
    inv.matvec(&diff)
}

/// The quaternion kinematic derivative of the state's attitude under its
/// own body rate; exactly zero at zero rate.
pub fn quaternion_derivative(state: &State) -> (r: Quaternion)
    requires
        q_bounded(state.quaternion, QCOMP_LIMIT as int),
        bounded(state.angular_velocity, OMEGA_LIMIT as int),
    ensures
        r == spec_q_derivative(state.quaternion, state.angular_velocity),
        state.angular_velocity == (Vec3 { x: 0i64, y: 0i64, z: 0i64 }) ==> r == (Quaternion {
            w: 0i64,
            x: 0i64,
            y: 0i64,
            z: 0i64,
        }),
{
    compute_quaternion_derivative(&state.quaternion, &state.angular_velocity)
}

/// Entries of the rotation matrix of a within-attitude-limit quaternion.
pub proof fn lemma_rot_entry_bounds(q: Quaternion)
    requires
        q_bounded(q, QATT_LIMIT as int),
    ensures
        m_bounded(spec_q_to_matrix(q), 20_000_000int),
{
    lemma_fx_mul_bound(q.w as int, q.w as int, QATT_LIMIT as int, QATT_LIMIT as int,
        4_000_000_000_000int);
    lemma_fx_mul_bound(q.w as int, q.x as int, QATT_LIMIT as int, QATT_LIMIT as int,
        4_000_000_000_000int);
    lemma_fx_mul_bound(q.w as int, q.y as int, QATT_LIMIT as int, QATT_LIMIT as int,
        4_000_000_000_000int);
    lemma_fx_mul_bound(q.w as int, q.z as int, QATT_LIMIT as int, QATT_LIMIT as int,
        4_000_000_000_000int);
    lemma_fx_mul_bound(q.x as int, q.x as int, QATT_LIMIT as int, QATT_LIMIT as int,
        4_000_000_000_000int);
    lemma_fx_mul_bound(q.x as int, q.y as int, QATT_LIMIT as int, QATT_LIMIT as int,
        4_000_000_000_000int);
    lemma_fx_mul_bound(q.x as int, q.z as int, QATT_LIMIT as int, QATT_LIMIT as int,
        4_000_000_000_000int);
    lemma_fx_mul_bound(q.y as int, q.y as int, QATT_LIMIT as int, QATT_LIMIT as int,
        4_000_000_000_000int);
    lemma_fx_mul_bound(q.y as int, q.z as int, QATT_LIMIT as int, QATT_LIMIT as int,
        4_000_000_000_000int);
    lemma_fx_mul_bound(q.z as int, q.z as int, QATT_LIMIT as int, QATT_LIMIT as int,
        4_000_000_000_000int);
}

/// All rescaled products and differences of a cross product of vectors
/// bounded by `la` and `lb` stay in range, and the result is bounded by
/// twice the rescaled product bound.
pub proof fn lemma_cross_fits(a: Vec3, b: Vec3, la: int, lb: int, m: int)
    requires
        bounded(a, la),
        bounded(b, lb),
        0 <= la <= COMP_LIMIT,
        0 <= lb <= COMP_LIMIT,
        la * lb <= m,
        m <= 4_000_000_000_000_000_000_000_000int,
    ensures
        can_cross(a, b),
        bounded(spec_cross(a, b), 2 * (m / (SCALE as int) + 1)),
{
    lemma_fx_mul_bound(a.y as int, b.z as int, la, lb, m);
    lemma_fx_mul_bound(a.z as int, b.y as int, la, lb, m);
    lemma_fx_mul_bound(a.z as int, b.x as int, la, lb, m);
    lemma_fx_mul_bound(a.x as int, b.z as int, la, lb, m);
    lemma_fx_mul_bound(a.x as int, b.y as int, la, lb, m);
    lemma_fx_mul_bound(a.y as int, b.x as int, la, lb, m);
}

/// Each component of the scaled cross product divided by twice the cubed
/// radius stays within the torque bound.
proof fn lemma_gg_comp(c: int, den2: int)
    requires
        -250_000_000_000_000int <= c <= 250_000_000_000_000int,
        2_000_000_000_000_000_000 <= den2,
    ensures
        -(GG_TORQUE_LIMIT as int) <= (2 * (3 * MU_EARTH * c) + den2) / (2 * den2)
            <= GG_TORQUE_LIMIT as int,
        -1_000_000_000_000_000_000_000_000_000_000int <= 3 * MU_EARTH * c
            <= 1_000_000_000_000_000_000_000_000_000_000int,
{
    assert(-(1_200_000_000_000_000int * 250_000_000_000_000int) <= 3 * MU_EARTH * c
        <= 1_200_000_000_000_000int * 250_000_000_000_000int) by (nonlinear_arith)
        requires
            -250_000_000_000_000int <= c <= 250_000_000_000_000int,
            MU_EARTH == 398_589_196_000_000i64;
    assert(-(GG_TORQUE_LIMIT as int) * den2 <= 3 * MU_EARTH * c <= (GG_TORQUE_LIMIT as int)
        * den2) by (nonlinear_arith)
        requires
            -300_000_000_000_000_000_000_000_000_000int <= 3 * MU_EARTH * c
                <= 300_000_000_000_000_000_000_000_000_000int,
            2_000_000_000_000_000_000 <= den2,
            GG_TORQUE_LIMIT == 300_000_000_001i64;
    lemma_nearest_div_bound(3 * MU_EARTH * c, den2, GG_TORQUE_LIMIT as int);
}

} // verus!
