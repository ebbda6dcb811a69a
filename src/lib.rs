//! Cube-map face effects and material resolution for a real-time renderer.
//!
//! The library decides what the graphics context is asked to do and what the
//! answers mean; the host that owns the context carries the requests out.
pub mod math;
pub mod gpu;
pub mod cube_map;
pub mod cube;
pub mod image_cube_effect;
pub mod material;
