//! Why a bake is given up.

use vstd::prelude::*;
use crate::programs::{ComputeProgram, DescriptorSet, GraphicsProgram};

verus! {

/// The reason a bake, or the making of a baker, stops. Each one ends the
/// call it comes from; nothing is retried.
#[derive(Clone, Copy, Debug, PartialEq, Eq, Structural)]
pub enum BakeError {
    /// No scene was set.
    SceneMissing,
    /// The scene has no mesh with the selected index.
    MeshMissing,
    /// A kernel the stage needs is not among the loaded ones.
    ProgramMissing(ComputeProgram),
    /// A rasterizing program the voxelizer needs is not configured.
    GraphicsProgramMissing(GraphicsProgram),
    /// A parameter set the stage needs does not exist.
    DescriptorSetMissing(DescriptorSet),
}

} // verus!
