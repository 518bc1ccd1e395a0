//! Host-side planning for baking a triangle mesh into a signed or unsigned
//! distance field on a regular voxel grid.
//!
//! The crate decides everything a bake needs besides the GPU work itself: the
//! grid, the resources and their sizes, the bindings, and the exact sequence
//! of fences and dispatches. It also computes on the host what those kernels
//! compute that work on integers: the scan of the per-voxel counts, the
//! compacted triangle list, the flood of nearest surface voxels and the
//! splatting of distances.

pub mod bake;
pub mod baker;
pub mod commands;
pub mod config;
pub mod error;
pub mod grid;
pub mod inventory;
pub mod kernels;
pub mod programs;
pub mod resources;
pub mod settings;
