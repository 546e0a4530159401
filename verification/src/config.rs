pub mod spacecraft;
