//! What the kernels of the pipeline compute, as far as it is integers:
//! the scan of the per-voxel counts, the compacted triangle list, the flood
//! of nearest surface voxels, and the splatting of distances. The planning
//! relies on these results; here they are stated, and computed on the host.

pub mod binning;
pub mod jump_flood;
pub mod scan;
pub mod splat;
