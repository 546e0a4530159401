use vstd::prelude::*;

verus! {

/// Standard gravitational parameter of the Earth, G * M_EARTH, in m^3/s^2
/// (unscaled SI integer; the fractional part is below the precision carried).
pub const MU_EARTH: i64 = 398_589_196_000_000;

/// Mean radius of the Earth in micro-metres.
pub const R_EARTH_FX: i64 = 6_371_000_000_000;

/// The circle constant pi, in fixed-point micro-units.
pub const PI_FX: i64 = 3_141_593;

/// Two pi, in fixed-point micro-units.
pub const TWO_PI_FX: i64 = 6_283_185;

} // verus!
