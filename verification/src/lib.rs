//! Rigid-body spacecraft propagation: orbital and rotational state under
//! gravity, drag, commanded thrust and control torque, advanced by a generic
//! fixed-step RK4 integrator, with a mode governor gating the control laws.
//!
//! All continuous quantities are carried in fixed-point arithmetic: an `i64`
//! holds the value times `numerics::fxp::SCALE` (six decimal places), so SI
//! positions are micro-metres, velocities micro-metres per second, times
//! micro-seconds.  Every operation has an exact integer semantics that the
//! contracts state in full.

pub mod config;
pub mod constants;
pub mod fsm;
pub mod gnc;
pub mod integrators;
pub mod models;
pub mod numerics;
pub mod physics;
