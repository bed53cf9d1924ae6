//! Verified core of a small instanced 2D renderer built on Vulkan: what the
//! renderer decides and computes, apart from the graphics calls themselves.
//!
//! - [`frame`]: the frame-slot rotation and the draw pool of `draw_request`.
//! - [`glyph`]: the glyph table and the text layout grid.
//! - [`swapchain`]: swapchain image count and the resize protocol.
//! - [`device`]: physical device and queue family selection.
//! - [`memory`]: memory type selection and buffer usage.
//! - [`mesh`]: the mesh table loader with index rebasing.
//! - [`shader`]: shader binaries as words.
//! - [`shapes`], [`camera`]: shape meshes, anchors, projection recompute policy.
//! - [`timing`], [`stats`]: timers, frame counting and render statistics.
//! - [`input`]: key and mouse button state.

pub mod camera;
pub mod device;
pub mod frame;
pub mod glyph;
pub mod input;
pub mod memory;
pub mod mesh;
pub mod shader;
pub mod shapes;
pub mod stats;
pub mod swapchain;
pub mod timing;
