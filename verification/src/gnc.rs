pub mod attitude_controller;
pub mod hohmann;
