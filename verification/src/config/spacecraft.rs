//! A simple spherical test satellite.

use vstd::prelude::*;
use crate::models::spacecraft::SpacecraftProperties;
use crate::numerics::mat3::Mat3;
use crate::numerics::vec3::Vec3;

verus! {

/// Mass of the test satellite: one hundred kilograms, fixed point.
pub const SIMPLE_SAT_MASS: i64 = 100_000_000;

/// Drag coefficient of the test satellite: 2.2, fixed point.
pub const SIMPLE_SAT_C_D: i64 = 2_200_000;

/// Radius of the test satellite: one metre, so its reference area is a
/// disc of area pi, fixed point.
pub const SIMPLE_SAT_AREA: i64 = 3_141_593;

/// Moment of inertia about each principal axis: ten, fixed point.
pub const SIMPLE_SAT_INERTIA: i64 = 10_000_000;

pub struct SimpleSat;

impl SimpleSat {
    /// The (diagonal) inertia tensor of the test satellite.
    pub fn inertia_tensor() -> (r: Mat3)
        ensures
            r == (Mat3 {
                r0: Vec3 { x: SIMPLE_SAT_INERTIA, y: 0i64, z: 0i64 },
                r1: Vec3 { x: 0i64, y: SIMPLE_SAT_INERTIA, z: 0i64 },
                r2: Vec3 { x: 0i64, y: 0i64, z: SIMPLE_SAT_INERTIA },
            }),
    {
        Mat3::diagonal(SIMPLE_SAT_INERTIA, SIMPLE_SAT_INERTIA, SIMPLE_SAT_INERTIA)
    }
}

impl SpacecraftProperties for SimpleSat {
    open spec fn spec_mass(&self) -> int {
        SIMPLE_SAT_MASS as int
    }

    open spec fn spec_drag_coefficient(&self) -> int {
        SIMPLE_SAT_C_D as int
    }

    open spec fn spec_reference_area(&self) -> int {
        SIMPLE_SAT_AREA as int
    }

    fn mass(&self) -> i64 {
        SIMPLE_SAT_MASS
    }

    fn drag_coefficient(&self) -> i64 {
        SIMPLE_SAT_C_D
    }

    fn reference_area(&self) -> i64 {
        SIMPLE_SAT_AREA
    }
}

} // verus!
