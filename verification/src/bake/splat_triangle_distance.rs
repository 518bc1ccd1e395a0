//! The distance stage of the unsigned pipeline: every triangle lowers the
//! field, in all voxels within its reach, to the distance from the voxel to
//! the triangle where that is less than what the voxel holds.

use vstd::prelude::*;
use crate::baker::SDFBaker;
use crate::commands::{
    bind, discarded, dispatch, external, only, storage_image, Binding, BindingKind, Command,
    CommandList, CommandView, Hazard, Image, Resource,
};
use crate::error::BakeError;
use crate::programs::{ComputeProgram, DescriptorSet};

verus! {

/// The parameter set of the stage.
pub open spec fn spec_splat_descriptor_sets() -> Seq<DescriptorSet> {
    seq![DescriptorSet::SplatTriangleDistance]
}

/// The kernel of the stage.
pub open spec fn spec_splat_programs() -> Seq<ComputeProgram> {
    seq![ComputeProgram::SplatTriangleDistance]
}

/// What the stage writes into its parameter set: the mesh and the field.
pub open spec fn spec_splat_bindings() -> Seq<Binding> {
    seq![
        external(
            DescriptorSet::SplatTriangleDistance,
            0,
            BindingKind::UniformBuffer,
            Resource::MeshUniform,
        ),
        external(
            DescriptorSet::SplatTriangleDistance,
            1,
            BindingKind::StorageBuffer,
            Resource::MeshIndices,
        ),
        external(
            DescriptorSet::SplatTriangleDistance,
            2,
            BindingKind::StorageBuffer,
            Resource::MeshVertices,
        ),
        storage_image(DescriptorSet::SplatTriangleDistance, 3, Image::DistanceTexture),
    ]
}

/// The commands of the stage: the filled field is made visible, then the
/// triangles are splatted into it.
pub open spec fn spec_splat_commands(dispatch_size_x: u32, dispatch_size_y: u32) -> Seq<CommandView> {
    seq![
        CommandView::ImageBarriers(
            seq![discarded(Image::DistanceTexture, Hazard::WriteThenReadWrite)],
        ),
        bind(ComputeProgram::SplatTriangleDistance, DescriptorSet::SplatTriangleDistance),
        dispatch(dispatch_size_x, dispatch_size_y, 1),
    ]
}

impl SDFBaker {
    /// Looks up the parameter set of the stage and says what is written
    /// into it.
    pub fn splat_triangle_distance_update(&self) -> (r: Result<Vec<Binding>, BakeError>)
        ensures
            match r {
                Ok(bindings) => bindings@ == spec_splat_bindings()
                    && self.udf_baker_resources.inventory.descriptor_sets_found(
                    spec_splat_descriptor_sets(),
                ) is Ok,
                Err(e) => self.udf_baker_resources.inventory.descriptor_sets_found(
                    spec_splat_descriptor_sets(),
                ) == Err::<(), BakeError>(e),
            },
    {
        let needed = only(DescriptorSet::SplatTriangleDistance);
        self.udf_baker_resources.inventory.require_descriptor_sets(&needed)?;
        let bindings = vec![
            external(
                DescriptorSet::SplatTriangleDistance,
                0,
                BindingKind::UniformBuffer,
                Resource::MeshUniform,
            ),
            external(
                DescriptorSet::SplatTriangleDistance,
                1,
                BindingKind::StorageBuffer,
                Resource::MeshIndices,
            ),
            external(
                DescriptorSet::SplatTriangleDistance,
                2,
                BindingKind::StorageBuffer,
                Resource::MeshVertices,
            ),
            storage_image(DescriptorSet::SplatTriangleDistance, 3, Image::DistanceTexture),
        ];
        assert(bindings@ =~= spec_splat_bindings());
        Ok(bindings)
    }

    /// Looks up the kernel of the stage and records it with the given
    /// dispatch size.
    pub fn splat_triangle_distance_compute(&self, dispatch_size_x: u32, dispatch_size_y: u32) -> (r:
        Result<CommandList, BakeError>)
        ensures
            match r {
                Ok(commands) => commands@ == spec_splat_commands(dispatch_size_x, dispatch_size_y)
                    && self.udf_baker_resources.inventory.programs_found(spec_splat_programs())
                    is Ok,
                Err(e) => self.udf_baker_resources.inventory.programs_found(spec_splat_programs())
                    == Err::<(), BakeError>(e),
            },
    {
        let needed = only(ComputeProgram::SplatTriangleDistance);
        self.udf_baker_resources.inventory.require_programs(&needed)?;
        let commands = CommandList::from_vec(
            vec![
                Command::ImageBarriers(
                    only(discarded(Image::DistanceTexture, Hazard::WriteThenReadWrite)),
                ),
                Command::BindCompute {
                    program: ComputeProgram::SplatTriangleDistance,
                    descriptor_set: DescriptorSet::SplatTriangleDistance,
                },
                Command::Dispatch { x: dispatch_size_x, y: dispatch_size_y, z: 1 },
            ],
        );
        assert(commands@ =~= spec_splat_commands(dispatch_size_x, dispatch_size_y));
        Ok(commands)
    }
}

} // verus!
