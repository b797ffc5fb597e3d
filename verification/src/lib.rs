//! A per-frame geometry batcher and render planner.
//!
//! Meshes with independent transforms are merged into one staged triangle
//! list; the library decides how the GPU-side buffers follow the staging
//! arrays and in which order a frame's passes run. Talking to the graphics
//! device is left to the caller, who carries out the commands returned here.

pub mod math;
pub mod mesh;
pub mod buffer;
pub mod batch;
pub mod frame;
