pub mod spacecraft;
pub mod state;
