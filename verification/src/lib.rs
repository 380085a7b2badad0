//! A verified ray-tracing kernel over saturating fixed-point arithmetic.
//!
//! The crate renders a scene of geometric primitives and light sources into a
//! 2D pixel buffer by casting one ray per pixel through a camera projection
//! and evaluating recursive intersection and shading.  Every numeric
//! operation is exact fixed-point arithmetic with a stated result, so each
//! stage of the pipeline carries a contract that pins its output down.

pub mod display;
pub mod element;
pub mod fixed;
pub mod light;
pub mod math;
pub mod object;
pub mod renderer;
pub mod trig;
