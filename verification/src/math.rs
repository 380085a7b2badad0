//! The math kernel: fixed-width vectors, a 4x4 matrix, Euler angles,
//! quaternions, and the 3D transform built from them.

pub mod euler;
pub mod mat4;
pub mod quat;
pub mod transform;
pub mod vec2;
pub mod vec3;
pub mod vec4;
