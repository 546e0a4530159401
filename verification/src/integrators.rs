pub mod rk4;
