pub mod spacecraft_states;
pub mod state_machine;
