//! The propagated spacecraft state and its vector-space algebra.
//!
//! `add` and `scale` combine every continuous field component-wise --
//! position, velocity, the quaternion as a flat 4-vector, angular velocity,
//! and the mission elapsed time -- while the non-additive fields (mass,
//! inertia tensor, epoch, fuel mass) are carried from the left-hand operand
//! unchanged.  The generic integrator relies on exactly this contract and
//! never inspects individual fields.

use vstd::prelude::*;
use crate::models::spacecraft::SpacecraftProperties;
use crate::numerics::fxp::{
    fits_i64, fx_mul, lemma_fx_mul_bound, lemma_fx_mul_distributes, lemma_fx_mul_one,
    spec_fx_mul, SCALE,
};
use crate::numerics::mat3::Mat3;
use crate::numerics::quaternion::Quaternion;
use crate::numerics::vec3::{can_vadd, can_vscale, spec_vadd, spec_vscale, Vec3};

verus! {

#[derive(Clone, Copy, Debug, PartialEq, Eq, Structural)]
pub struct State {
    /// Total mass, fixed-point kilograms.
    pub mass: i64,
    /// Inertia tensor in the body frame, fixed point.
    pub inertia_tensor: Mat3,
    /// Position in the inertial frame, fixed-point metres.
    pub position: Vec3,
    /// Velocity in the inertial frame, fixed-point metres per second.
    pub velocity: Vec3,
    /// Attitude quaternion, scalar first, inertial to body.
    pub quaternion: Quaternion,
    /// Angular velocity in the body frame, fixed-point radians per second.
    pub angular_velocity: Vec3,
    /// Absolute epoch, fixed-point seconds since the caller's time origin.
    pub epoch: i64,
    /// Seconds since the start of the mission, fixed point.
    pub mission_elapsed_time: i64,
    /// Remaining fuel mass, fixed-point kilograms.
    pub fuel_mass: i64,
}

pub open spec fn can_state_add(a: State, b: State) -> bool {
    &&& can_vadd(a.position, b.position)
    &&& can_vadd(a.velocity, b.velocity)
    &&& fits_i64(a.quaternion.w + b.quaternion.w)
    &&& fits_i64(a.quaternion.x + b.quaternion.x)
    &&& fits_i64(a.quaternion.y + b.quaternion.y)
    &&& fits_i64(a.quaternion.z + b.quaternion.z)
    &&& can_vadd(a.angular_velocity, b.angular_velocity)
    &&& fits_i64(a.mission_elapsed_time + b.mission_elapsed_time)
}

pub open spec fn spec_state_add(a: State, b: State) -> State {
    State {
        position: spec_vadd(a.position, b.position),
        velocity: spec_vadd(a.velocity, b.velocity),
        quaternion: Quaternion {
            w: (a.quaternion.w + b.quaternion.w) as i64,
            x: (a.quaternion.x + b.quaternion.x) as i64,
            y: (a.quaternion.y + b.quaternion.y) as i64,
            z: (a.quaternion.z + b.quaternion.z) as i64,
        },
        angular_velocity: spec_vadd(a.angular_velocity, b.angular_velocity),
        mission_elapsed_time: (a.mission_elapsed_time + b.mission_elapsed_time) as i64,
        ..a
    }
}

pub open spec fn can_state_scale(a: State, k: int) -> bool {
    &&& i64::MIN < k <= i64::MAX
    &&& can_vscale(a.position, k)
    &&& can_vscale(a.velocity, k)
    &&& a.quaternion.w > i64::MIN && a.quaternion.x > i64::MIN
    &&& a.quaternion.y > i64::MIN && a.quaternion.z > i64::MIN
    &&& fits_i64(spec_fx_mul(a.quaternion.w as int, k))
    &&& fits_i64(spec_fx_mul(a.quaternion.x as int, k))
    &&& fits_i64(spec_fx_mul(a.quaternion.y as int, k))
    &&& fits_i64(spec_fx_mul(a.quaternion.z as int, k))
    &&& can_vscale(a.angular_velocity, k)
    &&& a.mission_elapsed_time > i64::MIN
    &&& fits_i64(spec_fx_mul(a.mission_elapsed_time as int, k))
}

pub open spec fn spec_state_scale(a: State, k: int) -> State {
    State {
        position: spec_vscale(a.position, k),
        velocity: spec_vscale(a.velocity, k),
        quaternion: Quaternion {
            w: spec_fx_mul(a.quaternion.w as int, k) as i64,
            x: spec_fx_mul(a.quaternion.x as int, k) as i64,
            y: spec_fx_mul(a.quaternion.y as int, k) as i64,
            z: spec_fx_mul(a.quaternion.z as int, k) as i64,
        },
        angular_velocity: spec_vscale(a.angular_velocity, k),
        mission_elapsed_time: spec_fx_mul(a.mission_elapsed_time as int, k) as i64,
        ..a
    }
}

impl State {
    /// A fresh state at mission start: the mass comes from the spacecraft
    /// capability and a tenth of it is carried as fuel.
    pub fn new<T: SpacecraftProperties>(
        spacecraft: &T,
        inertia: Mat3,
        position: Vec3,
        velocity: Vec3,
        quaternion: Quaternion,
        angular_velocity: Vec3,
        epoch: i64,
    ) -> (r: State)
        ensures
            r.mass == spacecraft.spec_mass(),
            r.inertia_tensor == inertia,
            r.position == position,
            r.velocity == velocity,
            r.quaternion == quaternion,
            r.angular_velocity == angular_velocity,
            r.epoch == epoch,
            r.mission_elapsed_time == 0,
            r.fuel_mass == spec_fx_mul(spacecraft.spec_mass(), 100_000),
    {
        let mass = spacecraft.mass();
        proof {
            lemma_fx_mul_bound(
                mass as int,
                100_000int,
                crate::models::spacecraft::MASS_LIMIT as int,
                100_000int,
                100_000_000_000_000_000_000int,
            );
        }
        State {
            mass,
            inertia_tensor: inertia,
            position,
            velocity,
            quaternion,
            angular_velocity,
            epoch,
            mission_elapsed_time: 0,
            fuel_mass: fx_mul(mass, 100_000),
        }
    }

    /// The additive identity of the continuous fields, with the carried
    /// fields at their defaults and the identity attitude.
    pub fn zero<T: SpacecraftProperties>(spacecraft: &T) -> (r: State)
        ensures
            r.mass == spacecraft.spec_mass(),
            r.inertia_tensor == (Mat3 {
                r0: Vec3 { x: 0i64, y: 0i64, z: 0i64 },
                r1: Vec3 { x: 0i64, y: 0i64, z: 0i64 },
                r2: Vec3 { x: 0i64, y: 0i64, z: 0i64 },
            }),
            r.position == (Vec3 { x: 0i64, y: 0i64, z: 0i64 }),
            r.velocity == (Vec3 { x: 0i64, y: 0i64, z: 0i64 }),
            r.quaternion == (Quaternion { w: SCALE, x: 0i64, y: 0i64, z: 0i64 }),
            r.angular_velocity == (Vec3 { x: 0i64, y: 0i64, z: 0i64 }),
            r.epoch == 0,
            r.mission_elapsed_time == 0,
            r.fuel_mass == 0,
    {
        State {
            mass: spacecraft.mass(),
            inertia_tensor: Mat3::zero(),
            position: Vec3::zero(),
            velocity: Vec3::zero(),
            quaternion: Quaternion { w: SCALE, x: 0, y: 0, z: 0 },
            angular_velocity: Vec3::zero(),
            epoch: 0,
            mission_elapsed_time: 0,
            fuel_mass: 0,
        }
    }

    /// Component-wise sum of the continuous fields; mass, inertia, epoch
    /// and fuel are carried from `self`.
    pub fn add(&self, other: &State) -> (r: State)
        requires
            can_state_add(*self, *other),
        ensures
            r == spec_state_add(*self, *other),
    {
        State {
            mass: self.mass,
            inertia_tensor: self.inertia_tensor,
            position: self.position.add(&other.position),
            velocity: self.velocity.add(&other.velocity),
            quaternion: Quaternion {
                w: self.quaternion.w + other.quaternion.w,
                x: self.quaternion.x + other.quaternion.x,
                y: self.quaternion.y + other.quaternion.y,
                z: self.quaternion.z + other.quaternion.z,
            },
            angular_velocity: self.angular_velocity.add(&other.angular_velocity),
            epoch: self.epoch,
            mission_elapsed_time: self.mission_elapsed_time + other.mission_elapsed_time,
            fuel_mass: self.fuel_mass,
        }
    }

    /// Component-wise fixed-point scaling of the continuous fields; mass,
    /// inertia, epoch and fuel are carried from `self`.
    pub fn scale(&self, k: i64) -> (r: State)
        requires
            can_state_scale(*self, k as int),
        ensures
            r == spec_state_scale(*self, k as int),
    {
        State {
            mass: self.mass,
            inertia_tensor: self.inertia_tensor,
            position: self.position.scale(k),
            velocity: self.velocity.scale(k),
            quaternion: Quaternion {
                w: fx_mul(self.quaternion.w, k),
                x: fx_mul(self.quaternion.x, k),
                y: fx_mul(self.quaternion.y, k),
                z: fx_mul(self.quaternion.z, k),
            },
            angular_velocity: self.angular_velocity.scale(k),
            epoch: self.epoch,
            mission_elapsed_time: fx_mul(self.mission_elapsed_time, k),
            fuel_mass: self.fuel_mass,
        }
    }
}

/// Law: `add` on states is associative on every continuous field, and the
/// carried fields come from the leftmost operand either way.
pub proof fn lemma_state_add_associative(a: State, b: State, c: State)
    requires
        can_state_add(a, b),
        can_state_add(spec_state_add(a, b), c),
        can_state_add(b, c),
        can_state_add(a, spec_state_add(b, c)),
    ensures
        spec_state_add(spec_state_add(a, b), c) == spec_state_add(a, spec_state_add(b, c)),
{
}

/// Law: scaling by one whole unit is the identity on every continuous
/// field, so `scale` has the unit a vector space demands.
pub proof fn lemma_state_scale_one(a: State)
    requires
        can_state_scale(a, SCALE as int),
    ensures
        spec_state_scale(a, SCALE as int) == a,
{
    lemma_fx_mul_one(a.position.x as int);
    lemma_fx_mul_one(a.position.y as int);
    lemma_fx_mul_one(a.position.z as int);
    lemma_fx_mul_one(a.velocity.x as int);
    lemma_fx_mul_one(a.velocity.y as int);
    lemma_fx_mul_one(a.velocity.z as int);
    lemma_fx_mul_one(a.quaternion.w as int);
    lemma_fx_mul_one(a.quaternion.x as int);
    lemma_fx_mul_one(a.quaternion.y as int);
    lemma_fx_mul_one(a.quaternion.z as int);
    lemma_fx_mul_one(a.angular_velocity.x as int);
    lemma_fx_mul_one(a.angular_velocity.y as int);
    lemma_fx_mul_one(a.angular_velocity.z as int);
    lemma_fx_mul_one(a.mission_elapsed_time as int);
}

/// Law: scaling distributes over addition on every continuous field, up to
/// one raw unit of rounding per component (the fixed-point analogue of the
/// floating-point tolerance the exact law would need).
pub proof fn lemma_state_scale_distributes(a: State, b: State, k: int)
    requires
        can_state_add(a, b),
        can_state_scale(spec_state_add(a, b), k),
        can_state_scale(a, k),
        can_state_scale(b, k),
        can_state_add(spec_state_scale(a, k), spec_state_scale(b, k)),
    ensures
        close_to_one_unit(
            spec_state_scale(spec_state_add(a, b), k),
            spec_state_add(spec_state_scale(a, k), spec_state_scale(b, k)),
        ),
{
    lemma_fx_mul_distributes(a.position.x as int, b.position.x as int, k);
    lemma_fx_mul_distributes(a.position.y as int, b.position.y as int, k);
    lemma_fx_mul_distributes(a.position.z as int, b.position.z as int, k);
    lemma_fx_mul_distributes(a.velocity.x as int, b.velocity.x as int, k);
    lemma_fx_mul_distributes(a.velocity.y as int, b.velocity.y as int, k);
    lemma_fx_mul_distributes(a.velocity.z as int, b.velocity.z as int, k);
    lemma_fx_mul_distributes(a.quaternion.w as int, b.quaternion.w as int, k);
    lemma_fx_mul_distributes(a.quaternion.x as int, b.quaternion.x as int, k);
    lemma_fx_mul_distributes(a.quaternion.y as int, b.quaternion.y as int, k);
    lemma_fx_mul_distributes(a.quaternion.z as int, b.quaternion.z as int, k);
    lemma_fx_mul_distributes(a.angular_velocity.x as int, b.angular_velocity.x as int, k);
    lemma_fx_mul_distributes(a.angular_velocity.y as int, b.angular_velocity.y as int, k);
    lemma_fx_mul_distributes(a.angular_velocity.z as int, b.angular_velocity.z as int, k);
    lemma_fx_mul_distributes(a.mission_elapsed_time as int, b.mission_elapsed_time as int, k);
}

/// Every continuous field of the two states agrees to within one raw unit,
/// and the carried fields agree exactly.
pub open spec fn close_to_one_unit(p: State, q: State) -> bool {
    &&& -1 <= p.position.x - q.position.x <= 1
    &&& -1 <= p.position.y - q.position.y <= 1
    &&& -1 <= p.position.z - q.position.z <= 1
    &&& -1 <= p.velocity.x - q.velocity.x <= 1
    &&& -1 <= p.velocity.y - q.velocity.y <= 1
    &&& -1 <= p.velocity.z - q.velocity.z <= 1
    &&& -1 <= p.quaternion.w - q.quaternion.w <= 1
    &&& -1 <= p.quaternion.x - q.quaternion.x <= 1
    &&& -1 <= p.quaternion.y - q.quaternion.y <= 1
    &&& -1 <= p.quaternion.z - q.quaternion.z <= 1
    &&& -1 <= p.angular_velocity.x - q.angular_velocity.x <= 1
    &&& -1 <= p.angular_velocity.y - q.angular_velocity.y <= 1
    &&& -1 <= p.angular_velocity.z - q.angular_velocity.z <= 1
    &&& -1 <= p.mission_elapsed_time - q.mission_elapsed_time <= 1
    &&& p.mass == q.mass
    &&& p.inertia_tensor == q.inertia_tensor
    &&& p.epoch == q.epoch
    &&& p.fuel_mass == q.fuel_mass
}

} // verus!
