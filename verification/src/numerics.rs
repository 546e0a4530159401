pub mod fxp;
pub mod mat3;
pub mod quaternion;
pub mod vec3;
