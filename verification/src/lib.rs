//! Core state model of a voxel renderer.
//!
//! The crate tracks the CPU-visible state of GPU resources — typed buffers
//! with element capacities, textures with descriptor snapshots, bind-group
//! layouts assembled from ordered resource lists, render/compute pipeline
//! configurations — together with the voxel logic that feeds them: chunked
//! block grids, face-culled meshing, 3D-texture packing, and the temporal
//! anti-aliasing resources that must be resized and rebound when the
//! viewport changes.
//!
//! Everything here is plain data with proved contracts.  The thin layer
//! that owns the actual device objects mirrors the decisions made by these
//! types onto the graphics API.

pub mod block;
pub mod buffer;
pub mod camera;
pub mod chunk;
pub mod error;
pub mod mesh;
pub mod model;
pub mod pipeline;
pub mod renderer;
pub mod taa;
pub mod texture;
pub mod types;
