pub mod attitude;
pub mod drag;
pub mod dynamics;
pub mod energy;
pub mod environment;
pub mod gravity;
pub mod orbital;
