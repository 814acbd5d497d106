//! A software rasterizer that draws flat-shaded triangle meshes into a grid
//! of characters.
//!
//! The crate holds the deterministic core of the renderer: vector and matrix
//! arithmetic over a caller-chosen scalar type, integer line rasterization,
//! the character frame buffer, the transfer of projected outlines into that
//! buffer, and the per-frame decisions of the render loop.

pub mod engine;
pub mod prelude;
