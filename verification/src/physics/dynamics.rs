//! The equations of motion: the pluggable derivative abstraction and the
//! spacecraft implementation composing gravity, drag, commanded thrust,
//! rotational dynamics and quaternion kinematics.

use vstd::prelude::*;
use crate::models::spacecraft::SpacecraftProperties;
use crate::models::state::State;
use crate::numerics::fxp::{fits_i64, fx_div, spec_fx_div};
use crate::numerics::mat3::Mat3;
use crate::numerics::quaternion::{q_bounded, spec_q_derivative, QCOMP_LIMIT};
use crate::numerics::vec3::{bounded, can_vadd, spec_vadd, Vec3};
use crate::physics::attitude::{
    can_angular_acceleration, spec_angular_acceleration, OMEGA_LIMIT,
};
use crate::physics::drag::{can_drag, drag_force, spec_drag_vec};
use crate::physics::environment::spec_density;
use crate::physics::gravity::{can_gravity, gravity_acceleration, spec_gravity_accel};

verus! {

/// Anything that can turn a state into its time derivative.  `model` is
/// the specification-level derivative; `compute_derivative` must realise
/// it exactly on every state `ok` admits.
pub trait EquationsOfMotion: Sized {
    spec fn ok(&self, s: State) -> bool;

    spec fn model(&self, s: State) -> State;

    fn compute_derivative(&self, state: &State) -> (d: State)
        requires
            self.ok(*state),
        ensures
            d == self.model(*state),
    ;
}

/// The rigid-body spacecraft dynamics, with optional commanded thrust and
/// torque gated in by the caller.
pub struct SpacecraftDynamics<T: SpacecraftProperties> {
    pub spacecraft: T,
    pub thrust: Option<Vec3>,
    pub torque: Option<Vec3>,
}

impl<T: SpacecraftProperties> SpacecraftDynamics<T> {
    pub fn new(spacecraft: T, thrust: Option<Vec3>, torque: Option<Vec3>) -> (r:
        SpacecraftDynamics<T>)
        ensures
            r.spacecraft == spacecraft,
            r.thrust == thrust,
            r.torque == torque,
    {
        SpacecraftDynamics { spacecraft, thrust, torque }
    }
}

/// The translational acceleration: gravity, plus drag over mass, plus
/// commanded thrust over mass when present.
pub open spec fn spec_accel<T: SpacecraftProperties>(d: SpacecraftDynamics<T>, s: State) -> Vec3 {
    let g = spec_gravity_accel(s.position);
    let f = spec_drag_vec(
        d.spacecraft.spec_drag_coefficient(),
        d.spacecraft.spec_reference_area(),
        spec_density(s.position),
        s.velocity,
    );
    let fm = Vec3 {
        x: spec_fx_div(f.x as int, s.mass as int) as i64,
        y: spec_fx_div(f.y as int, s.mass as int) as i64,
        z: spec_fx_div(f.z as int, s.mass as int) as i64,
    };
    let a = spec_vadd(g, fm);
    match d.thrust {
        Some(t) => spec_vadd(
            a,
            Vec3 {
                x: spec_fx_div(t.x as int, s.mass as int) as i64,
                y: spec_fx_div(t.y as int, s.mass as int) as i64,
                z: spec_fx_div(t.z as int, s.mass as int) as i64,
            },
        ),
        None => a,
    }
}

/// The full state derivative: velocity, acceleration, quaternion
/// kinematics and Euler's equation; the carried fields as `State::zero`
/// leaves them.
pub open spec fn spec_dynamics_model<T: SpacecraftProperties>(
    d: SpacecraftDynamics<T>,
    s: State,
) -> State {
    State {
        mass: d.spacecraft.spec_mass() as i64,
        inertia_tensor: Mat3 {
            r0: Vec3 { x: 0i64, y: 0i64, z: 0i64 },
            r1: Vec3 { x: 0i64, y: 0i64, z: 0i64 },
            r2: Vec3 { x: 0i64, y: 0i64, z: 0i64 },
        },
        position: s.velocity,
        velocity: spec_accel(d, s),
        quaternion: spec_q_derivative(s.quaternion, s.angular_velocity),
        angular_velocity: spec_angular_acceleration(s, d.torque),
        epoch: 0,
        mission_elapsed_time: 0,
        fuel_mass: 0,
    }
}

/// The states the spacecraft dynamics accept: in gravity and drag range,
/// positive mass, bounded attitude state, an invertible inertia tensor,
/// and every rescaled quotient in machine range.
pub open spec fn spec_dynamics_ok<T: SpacecraftProperties>(
    d: SpacecraftDynamics<T>,
    s: State,
) -> bool {
    let f = spec_drag_vec(
        d.spacecraft.spec_drag_coefficient(),
        d.spacecraft.spec_reference_area(),
        spec_density(s.position),
        s.velocity,
    );
    let fm = Vec3 {
        x: spec_fx_div(f.x as int, s.mass as int) as i64,
        y: spec_fx_div(f.y as int, s.mass as int) as i64,
        z: spec_fx_div(f.z as int, s.mass as int) as i64,
    };
    let g = spec_gravity_accel(s.position);
    &&& can_gravity(s.position)
    &&& can_drag(
        d.spacecraft.spec_drag_coefficient(),
        d.spacecraft.spec_reference_area(),
        spec_density(s.position),
        s.velocity,
    )
    &&& 0 < s.mass
    &&& fits_i64(spec_fx_div(f.x as int, s.mass as int))
    &&& fits_i64(spec_fx_div(f.y as int, s.mass as int))
    &&& fits_i64(spec_fx_div(f.z as int, s.mass as int))
    &&& can_vadd(g, fm)
    &&& match d.thrust {
        Some(t) => {
            &&& fits_i64(spec_fx_div(t.x as int, s.mass as int))
            &&& fits_i64(spec_fx_div(t.y as int, s.mass as int))
            &&& fits_i64(spec_fx_div(t.z as int, s.mass as int))
            &&& can_vadd(
                spec_vadd(g, fm),
                Vec3 {
                    x: spec_fx_div(t.x as int, s.mass as int) as i64,
                    y: spec_fx_div(t.y as int, s.mass as int) as i64,
                    z: spec_fx_div(t.z as int, s.mass as int) as i64,
                },
            )
        },
        None => true,
    }
    &&& q_bounded(s.quaternion, QCOMP_LIMIT as int)
    &&& bounded(s.angular_velocity, OMEGA_LIMIT as int)
    &&& can_angular_acceleration(s, d.torque)
}

impl<T: SpacecraftProperties> EquationsOfMotion for SpacecraftDynamics<T> {
    open spec fn ok(&self, s: State) -> bool {
        spec_dynamics_ok(*self, s)
    }

    open spec fn model(&self, s: State) -> State {
        spec_dynamics_model(*self, s)
    }

    fn compute_derivative(&self, state: &State) -> (d: State) {
        let g = gravity_acceleration(&state.position);
        let f = drag_force(&self.spacecraft, &state.position, &state.velocity);
        let fm = Vec3 {
            x: fx_div(f.x, state.mass),
            y: fx_div(f.y, state.mass),
            z: fx_div(f.z, state.mass),
        };
        let mut accel = g.add(&fm);
        match &self.thrust {
            Some(t) => {
                let tm = Vec3 {
                    x: fx_div(t.x, state.mass),
                    y: fx_div(t.y, state.mass),
                    z: fx_div(t.z, state.mass),
                };
                accel = accel.add(&tm);
            },
            None => {},
        }
        let torque_arg = match &self.torque {
            Some(t) => Some(t),
            None => None,
        };
        let alpha = crate::physics::attitude::angular_acceleration(state, torque_arg);
        let qdot = crate::physics::attitude::quaternion_derivative(state);
        State {
            mass: self.spacecraft.mass(),
            inertia_tensor: Mat3::zero(),
            position: state.velocity,
            velocity: accel,
            quaternion: qdot,
            angular_velocity: alpha,
            epoch: 0,
            mission_elapsed_time: 0,
            fuel_mass: 0,
        }
    }
}

} // verus!
