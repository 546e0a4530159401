//! The closed set of operating modes the governor moves between.

use vstd::prelude::*;

verus! {

#[derive(Clone, Copy, Debug, PartialEq, Eq, Structural)]
pub enum SpacecraftState {
    SafeMode,
    Detumbling,
    NominalOperation,
    ManeuverPrep,
    Maneuvering,
    Emergency,
}

impl SpacecraftState {
    /// A human-readable name, for reports and logs.
    pub fn name(&self) -> (r: &'static str)
        ensures
            *self == SpacecraftState::SafeMode ==> r@ == "Safe Mode"@,
            *self == SpacecraftState::Detumbling ==> r@ == "Detumbling"@,
            *self == SpacecraftState::NominalOperation ==> r@ == "Nominal Operation"@,
            *self == SpacecraftState::ManeuverPrep ==> r@ == "Maneuver Preparation"@,
            *self == SpacecraftState::Maneuvering ==> r@ == "Maneuvering"@,
            *self == SpacecraftState::Emergency ==> r@ == "Emergency"@,
    {
        match self {
            SpacecraftState::SafeMode => "Safe Mode",
            SpacecraftState::Detumbling => "Detumbling",
            SpacecraftState::NominalOperation => "Nominal Operation",
            SpacecraftState::ManeuverPrep => "Maneuver Preparation",
            SpacecraftState::Maneuvering => "Maneuvering",
            SpacecraftState::Emergency => "Emergency",
        }
    }
}

} // verus!
