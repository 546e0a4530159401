//! The capability a spacecraft variant supplies to the force models.

use vstd::prelude::*;

verus! {

/// Upper cap on a spacecraft's mass, in fixed point (a billion kilograms).
pub const MASS_LIMIT: i64 = 1_000_000_000_000_000;

/// Upper cap on a drag coefficient, in fixed point (one hundred).
pub const DRAG_COEFF_LIMIT: i64 = 100_000_000;

/// Upper cap on a reference area, in fixed point (a square kilometre).
pub const AREA_LIMIT: i64 = 1_000_000_000_000;

/// Mass, drag coefficient and reference area of a spacecraft variant, as
/// fixed-point scalars.  The caps keep every force-model computation within
/// machine range and are far beyond any physical vehicle.
pub trait SpacecraftProperties: Sized {
    spec fn spec_mass(&self) -> int;

    spec fn spec_drag_coefficient(&self) -> int;

    spec fn spec_reference_area(&self) -> int;

    fn mass(&self) -> (m: i64)
        ensures
            m == self.spec_mass(),
            0 < m <= MASS_LIMIT,
    ;

    fn drag_coefficient(&self) -> (c: i64)
        ensures
            c == self.spec_drag_coefficient(),
            0 <= c <= DRAG_COEFF_LIMIT,
    ;

    fn reference_area(&self) -> (a: i64)
        ensures
            a == self.spec_reference_area(),
            0 < a <= AREA_LIMIT,
    ;
}

} // verus!
