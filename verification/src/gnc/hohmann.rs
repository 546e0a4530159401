//! Apsis-targeting guidance: a bounded thrust that moves a named apsis of
//! the orbit toward a target radius.
//!
//! Before its start time, or when the targeted apsis is already within
//! tolerance of the target, or away from the correct burn point (the
//! opposite apsis), the commanded force is exactly zero.  At the burn
//! point the force is the velocity direction scaled by the vis-viva
//! speed change, clamped to a per-call limit, times the vehicle mass.

use vstd::prelude::*;
use crate::constants::MU_EARTH;
use crate::models::spacecraft::{SpacecraftProperties, MASS_LIMIT};
use crate::numerics::fxp::{
    div_floor, fx_div, fx_mul, is_isqrt, isqrt, lemma_fx_div_bounds, lemma_fx_mul_bound,
    lemma_nearest_div_bound, lemma_sqrt_floor, spec_fx_div, spec_fx_mul, spec_sqrt_floor,
    SCALE,
};
use crate::numerics::vec3::{
    bounded, lemma_comp_within_norm, spec_norm, spec_norm_sq, Vec3,
};
use crate::physics::gravity::POS_LIMIT;
use crate::physics::orbital::{can_apsides, spec_apogee, spec_perigee, OrbitalMechanics};

verus! {

/// How close an apsis radius must come to the target, and how close the
/// vehicle must stand to the burn apsis: one hundred metres, fixed point.
pub const APSIS_TOLERANCE: i64 = 100_000_000;

/// The speed change applied per call is clamped to one hundred metres per
/// second, fixed point.
pub const MAX_BURN_DV: i64 = 100_000_000;

#[derive(Clone, Copy, Debug, PartialEq, Eq, Structural)]
pub enum ApsisType {
    Perigee,
    Apogee,
}

pub struct ApsisTargeting {
    pub target_radius: i64,
    pub apsis_type: ApsisType,
    pub start_time: i64,
}

/// The vis-viva speed for reaching the target radius from the current
/// radius: sqrt(mu (2/r - 2/(target + r))), in fixed point; the inner
/// difference is clamped at zero against rounding.
pub open spec fn spec_target_speed(g: ApsisTargeting, r: Vec3) -> int {
    let r_m = spec_norm(r) / (SCALE as int);
    let t_m = g.target_radius as int / (SCALE as int);
    let term1 = (2 * (2 * MU_EARTH) + r_m) / (2 * r_m);
    let term2 = (2 * (2 * MU_EARTH) + (t_m + r_m)) / (2 * (t_m + r_m));
    let inner = if term1 - term2 < 0 {
        0
    } else {
        term1 - term2
    };
    spec_sqrt_floor(inner * 1_000_000_000_000)
}

/// The speed change of the burn, clamped to the per-call limit.
pub open spec fn spec_burn_dv(g: ApsisTargeting, r: Vec3, v: Vec3) -> int {
    let dv = spec_target_speed(g, r) - spec_norm(v);
    if dv > MAX_BURN_DV {
        MAX_BURN_DV as int
    } else if dv < -MAX_BURN_DV {
        -(MAX_BURN_DV as int)
    } else {
        dv
    }
}

/// The full guidance decision: zero before the start time, zero when the
/// targeted apsis is within tolerance, zero away from the opposite apsis,
/// and otherwise the spacecraft mass times the clamped speed change along
/// the velocity.
pub open spec fn spec_desired_force(g: ApsisTargeting, mass: int, r: Vec3, v: Vec3, t: int) -> Vec3 {
    let zero = Vec3 { x: 0i64, y: 0i64, z: 0i64 };
    if t < g.start_time {
        zero
    } else {
        let ra = spec_apogee(r, v);
        let rp = spec_perigee(r, v);
        let diff = match g.apsis_type {
            ApsisType::Perigee => rp - g.target_radius,
            ApsisType::Apogee => ra - g.target_radius,
        };
        if -(APSIS_TOLERANCE as int) <= diff <= APSIS_TOLERANCE as int {
            zero
        } else {
            let at_apogee = -(APSIS_TOLERANCE as int) < spec_norm(r) - ra < APSIS_TOLERANCE
                as int;
            let at_perigee = -(APSIS_TOLERANCE as int) < spec_norm(r) - rp < APSIS_TOLERANCE
                as int;
            let at_burn_point = match g.apsis_type {
                ApsisType::Perigee => at_apogee,
                ApsisType::Apogee => at_perigee,
            };
            if at_burn_point {
                let vn = spec_norm(v);
                let burn = spec_burn_dv(g, r, v);
                Vec3 {
                    x: spec_fx_mul(
                        spec_fx_mul(spec_fx_div(v.x as int, vn), burn),
                        mass,
                    ) as i64,
                    y: spec_fx_mul(
                        spec_fx_mul(spec_fx_div(v.y as int, vn), burn),
                        mass,
                    ) as i64,
                    z: spec_fx_mul(
                        spec_fx_mul(spec_fx_div(v.z as int, vn), burn),
                        mass,
                    ) as i64,
                }
            } else {
                zero
            }
        }
    }
}

/// How far the targeted apsis stands from the target radius.
pub open spec fn spec_apsis_diff(g: ApsisTargeting, r: Vec3, v: Vec3) -> int {
    match g.apsis_type {
        ApsisType::Perigee => spec_perigee(r, v) - g.target_radius,
        ApsisType::Apogee => spec_apogee(r, v) - g.target_radius,
    }
}

/// Inputs the guidance accepts: an orbit the apsis computation accepts, a
/// nonzero velocity, and a target radius in range.
pub open spec fn can_desired_force(g: ApsisTargeting, r: Vec3, v: Vec3) -> bool {
    &&& can_apsides(r, v)
    &&& spec_norm_sq(v) > 0
    &&& SCALE <= g.target_radius <= POS_LIMIT
}

impl ApsisTargeting {
    pub fn new(target_radius: i64, apsis_type: ApsisType, start_time: i64) -> (r:
        ApsisTargeting)
        ensures
            r.target_radius == target_radius,
            r.apsis_type == apsis_type,
            r.start_time == start_time,
    {
        ApsisTargeting { target_radius, apsis_type, start_time }
    }

    pub fn get_apsis_type(&self) -> (r: ApsisType)
        ensures
            r == self.apsis_type,
    {
        self.apsis_type
    }

    pub fn get_target_radius(&self) -> (r: i64)
        ensures
            r == self.target_radius,
    {
        self.target_radius
    }

    /// The thrust the guidance asks for from `spacecraft` at elapsed time
    /// `time_since_start`: zero before the start time and whenever the
    /// targeted apsis is within tolerance of the target.
    pub fn get_desired_force<T: SpacecraftProperties>(
        &self,
        spacecraft: &T,
        r_current: &Vec3,
        v_current: &Vec3,
        time_since_start: i64,
    ) -> (f: Vec3)
        requires
            can_desired_force(*self, *r_current, *v_current),
        ensures
            f == spec_desired_force(
                *self,
                spacecraft.spec_mass(),
                *r_current,
                *v_current,
                time_since_start as int,
            ),
            time_since_start < self.start_time ==> f == (Vec3 { x: 0i64, y: 0i64, z: 0i64 }),
            time_since_start >= self.start_time && -(APSIS_TOLERANCE as int) <= spec_apsis_diff(
                *self,
                *r_current,
                *v_current,
            ) <= APSIS_TOLERANCE as int ==> f == (Vec3 { x: 0i64, y: 0i64, z: 0i64 }),
    {
        if time_since_start < self.start_time {
            return Vec3 { x: 0, y: 0, z: 0 };
        }
        let (ra, rp) = OrbitalMechanics::compute_apsides(r_current, v_current);
        let diff = match self.apsis_type {
            ApsisType::Perigee => rp - self.target_radius,
            ApsisType::Apogee => ra - self.target_radius,
        };
        let should_burn = diff > APSIS_TOLERANCE || diff < -APSIS_TOLERANCE;
        if !should_burn {
            return Vec3 { x: 0, y: 0, z: 0 };
        }
        let (at_apogee, at_perigee) = OrbitalMechanics::is_near_apsis(
            r_current,
            v_current,
            APSIS_TOLERANCE,
        );
        let at_burn_point = match self.apsis_type {
            ApsisType::Perigee => at_apogee,
            ApsisType::Apogee => at_perigee,
        };
        if !at_burn_point {
            return Vec3 { x: 0, y: 0, z: 0 };
        }
        let vn = v_current.norm();
        proof {
            assert(vn >= 1) by (nonlinear_arith)
                requires
                    is_isqrt(spec_norm_sq(*v_current), vn as int),
                    spec_norm_sq(*v_current) > 0;
            lemma_comp_within_norm(*v_current, vn as int);
            lemma_fx_div_bounds(v_current.x as int, vn as int);
            lemma_fx_div_bounds(v_current.y as int, vn as int);
            lemma_fx_div_bounds(v_current.z as int, vn as int);
        }
        let dir = Vec3 {
            x: fx_div(v_current.x, vn),
            y: fx_div(v_current.y, vn),
            z: fx_div(v_current.z, vn),
        };
        let rm = r_current.norm();
        let r_m = ((rm as u64) / 1_000_000) as i64;
        let t_m = ((self.target_radius as u64) / 1_000_000) as i64;
        proof {
            lemma_visviva_term(r_m as int);
            lemma_visviva_term(t_m as int + r_m as int);
        }
        let term1 = div_floor(
            2 * (2 * (MU_EARTH as i128)) + (r_m as i128),
            2 * (r_m as i128),
        ) as i64;
        let term2 = div_floor(
            2 * (2 * (MU_EARTH as i128)) + ((t_m as i128) + (r_m as i128)),
            2 * ((t_m as i128) + (r_m as i128)),
        ) as i64;
        let inner = if term1 - term2 < 0 {
            0
        } else {
            term1 - term2
        };
        let qu = isqrt((inner as u128) * 1_000_000_000_000);
        proof {
            assert(qu <= 900_000_000_000u64) by (nonlinear_arith)
                requires
                    is_isqrt(inner as int * 1_000_000_000_000, qu as int),
                    0 <= (inner as int) * 1_000_000_000_000
                        <= 800_000_000_000_000_000_000int;
        }
        let tv = qu as i64;
        proof {
            lemma_sqrt_floor((inner as int) * 1_000_000_000_000, tv as int);
        }
        let dv = tv - vn;
        let burn = if dv > MAX_BURN_DV {
            MAX_BURN_DV
        } else if dv < -MAX_BURN_DV {
            -MAX_BURN_DV
        } else {
            dv
        };
        proof {
            lemma_fx_mul_bound(dir.x as int, burn as int, SCALE as int, MAX_BURN_DV as int,
                100_000_000_000_000int);
            lemma_fx_mul_bound(dir.y as int, burn as int, SCALE as int, MAX_BURN_DV as int,
                100_000_000_000_000int);
            lemma_fx_mul_bound(dir.z as int, burn as int, SCALE as int, MAX_BURN_DV as int,
                100_000_000_000_000int);
        }
        let bx = fx_mul(dir.x, burn);
        let by = fx_mul(dir.y, burn);
        let bz = fx_mul(dir.z, burn);
        let mass = spacecraft.mass();
        proof {
            lemma_fx_mul_bound(bx as int, mass as int, 100_000_001int, MASS_LIMIT as int,
                100_000_001_000_000_000_000_000int);
            lemma_fx_mul_bound(by as int, mass as int, 100_000_001int, MASS_LIMIT as int,
                100_000_001_000_000_000_000_000int);
            lemma_fx_mul_bound(bz as int, mass as int, 100_000_001int, MASS_LIMIT as int,
                100_000_001_000_000_000_000_000int);
        }
        Vec3 {
            x: fx_mul(bx, mass),
            y: fx_mul(by, mass),
            z: fx_mul(bz, mass),
        }
    }
}

/// A vis-viva term 2 mu / d at metre-scale divisors is small and positive.
proof fn lemma_visviva_term(d: int)
    requires
        1_000_000 <= d,
    ensures
        0 <= (2 * (2 * MU_EARTH) + d) / (2 * d) <= 797_178_392int,
{
    assert((2 * MU_EARTH) <= 797_178_392int * d) by (nonlinear_arith)
        requires
            1_000_000 <= d;
    assert(-(797_178_392int) * d <= 2 * MU_EARTH) by (nonlinear_arith)
        requires
            1_000_000 <= d;
    lemma_nearest_div_bound(2 * MU_EARTH, d, 797_178_392int);
    vstd::arithmetic::div_mod::lemma_div_pos_is_pos(2 * (2 * MU_EARTH) + d, 2 * d);
}

} // verus!
