//! A voxel tunnel renderer whose decisions are proved.
//!
//! The world is a cube of block types with an atlas of block textures. A ray
//! is traced through it on integers: the caller samples the ray where it
//! crosses the grid, and the library decides which sample is the visible
//! surface and how it is lit.

pub mod color;
mod rng;
pub mod texture;
pub mod world;
pub mod ray;
pub mod renderer;
pub mod terminal;
