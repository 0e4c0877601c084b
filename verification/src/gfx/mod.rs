//! Graphics: colors, geometry, and the sizing decisions of the renderer.

pub mod canvas;
pub mod color;
pub mod geometry;
pub mod vulkan;
