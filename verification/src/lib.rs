//! Exact geometry of a textured unit voxel cube.
//!
//! A [`Cube`] carries six [`Face`]s, one per axis direction. Each face is a quad of
//! two triangles with a texture coordinate per vertex and an outward normal.
//! [`Cube::to_vertex`] packs the six faces into one interleaved vertex buffer.
//!
//! Every position and texture coordinate is an integer count of grid steps, with
//! [`units::UNIT`] steps to one whole, so all of the geometry is exact and all
//! of it is proved. A caller that needs floating point divides by `UNIT`.

pub mod cube;
pub mod face;
pub mod memory;
pub mod units;

pub use cube::Cube;
pub use face::Face;
pub use memory::Memory;
