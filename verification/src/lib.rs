//! Core of a minimal real-time 3D renderer.
//!
//! The library models the frame-resource and draw-submission pipeline of the
//! renderer: flattening a list of models into contiguous vertex/index arrays
//! with one draw range per mesh, uploading those arrays (and the per-frame
//! view matrix) into fixed-capacity buffers, and tracking the dimensions of
//! the window-sized presentation resources across resizes.  Everything the
//! GPU sees is modeled here as plain bytes and words; the hosting application
//! owns the actual device, surface and shader objects and drives this core
//! from its event loop.
//!
//! Floating-point values (vertex components, the view matrix) are carried as
//! their IEEE 754 bit patterns in `u32` words: the renderer never does
//! arithmetic on them, it only copies them into GPU memory verbatim.

pub mod audio;
pub mod buffers;
pub mod bytes;
pub mod config;
pub mod flatten;
pub mod geometry;
pub mod renderer;
