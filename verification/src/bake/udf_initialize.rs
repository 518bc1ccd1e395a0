//! The first and the last stage of the unsigned pipeline: the field is set
//! to a distance beyond every real one before the triangles are splatted,
//! and brought into its final form after.

use vstd::prelude::*;
use crate::bake::{grid_dispatch, spec_grid_dispatch};
use crate::baker::SDFBaker;
use crate::commands::{
    bind, discarded, only, storage_image, Binding, Buffer, Command, CommandList, CommandView,
    Hazard, Image,
};
use crate::error::BakeError;
use crate::programs::{ComputeProgram, DescriptorSet};
use crate::resources::{Extent, Requirement};

verus! {

/// The field and the two index buffers, with their sizes.
pub open spec fn spec_udf_requirements(num_of_voxels: u32, dimensions: Seq<u32>) -> Seq<Requirement> {
    seq![
        Requirement::Image {
            image: Image::DistanceTexture,
            extent: Extent { width: dimensions[0], height: dimensions[1], depth: dimensions[2] },
        },
        Requirement::Buffer { buffer: Buffer::JumpBuffer, size: (num_of_voxels as int * 4) as u64 },
        Requirement::Buffer { buffer: Buffer::JumpBufferBis, size: (num_of_voxels as int * 4) as u64 },
    ]
}

/// The parameter sets of the two stages, in the order they are looked up.
pub open spec fn spec_udf_initialize_descriptor_sets() -> Seq<DescriptorSet> {
    seq![DescriptorSet::UdfInit, DescriptorSet::UdfFinal]
}

/// What is written into the two parameter sets: the field.
pub open spec fn spec_udf_initialize_bindings() -> Seq<Binding> {
    seq![
        storage_image(DescriptorSet::UdfInit, 0, Image::DistanceTexture),
        storage_image(DescriptorSet::UdfFinal, 0, Image::DistanceTexture),
    ]
}

/// The kernel of the first stage.
pub open spec fn spec_udf_initialize_programs() -> Seq<ComputeProgram> {
    seq![ComputeProgram::UdfInit]
}

/// The kernel of the last stage.
pub open spec fn spec_udf_finalize_programs() -> Seq<ComputeProgram> {
    seq![ComputeProgram::UdfFinal]
}

/// The commands of the first stage: the field is taken over without its
/// content and filled.
pub open spec fn spec_udf_initialize_commands(dimensions: Seq<u32>) -> Seq<CommandView> {
    seq![
        CommandView::ImageBarriers(seq![discarded(Image::DistanceTexture, Hazard::Execution)]),
        bind(ComputeProgram::UdfInit, DescriptorSet::UdfInit),
        spec_grid_dispatch(dimensions, 8),
    ]
}

/// The commands of the last stage: what was splatted is made visible and
/// the field is finished in place.
pub open spec fn spec_udf_finalize_commands(dimensions: Seq<u32>) -> Seq<CommandView> {
    seq![
        CommandView::ImageBarriers(
            seq![discarded(Image::DistanceTexture, Hazard::WriteThenReadWrite)],
        ),
        bind(ComputeProgram::UdfFinal, DescriptorSet::UdfFinal),
        spec_grid_dispatch(dimensions, 8),
    ]
}

impl SDFBaker {
    /// Asks for the field and the two index buffers of the unsigned
    /// pipeline. Returns those that have to be allocated.
    pub fn udf_initialize_create_buffers_images(&mut self, num_of_voxels: u32, dimensions: &[u32; 3]) -> (allocations:
        Vec<Requirement>)
        ensures
            allocations@ == old(self).udf_baker_resources.cache.allocations(
                spec_udf_requirements(num_of_voxels, dimensions@),
            ),
            final(self).udf_baker_resources.cache == old(self).udf_baker_resources.cache.acquired(
                spec_udf_requirements(num_of_voxels, dimensions@),
            ),
            final(self).udf_baker_resources.inventory == old(self).udf_baker_resources.inventory,
            final(self).sdf_baker_resources == old(self).sdf_baker_resources,
            final(self).scene == old(self).scene,
            final(self).num_of_meshes == old(self).num_of_meshes,
            final(self).settings == old(self).settings,
            final(self).is_rotating_camera == old(self).is_rotating_camera,
    {
        let size = num_of_voxels as u64 * 4;
        let requirements = vec![
            Requirement::Image {
                image: Image::DistanceTexture,
                extent: Extent { width: dimensions[0], height: dimensions[1], depth: dimensions[2] },
            },
            Requirement::Buffer { buffer: Buffer::JumpBuffer, size },
            Requirement::Buffer { buffer: Buffer::JumpBufferBis, size },
        ];
        assert(requirements@ =~= spec_udf_requirements(num_of_voxels, dimensions@));
        self.udf_baker_resources.cache.acquire(&requirements)
    }

    /// Looks up the parameter sets of the two stages and says what is
    /// written into them.
    pub fn udf_initialize_update(&self) -> (r: Result<Vec<Binding>, BakeError>)
        ensures
            match r {
                Ok(bindings) => bindings@ == spec_udf_initialize_bindings()
                    && self.udf_baker_resources.inventory.descriptor_sets_found(
                    spec_udf_initialize_descriptor_sets(),
                ) is Ok,
                Err(e) => self.udf_baker_resources.inventory.descriptor_sets_found(
                    spec_udf_initialize_descriptor_sets(),
                ) == Err::<(), BakeError>(e),
            },
    {
        let needed = vec![DescriptorSet::UdfInit, DescriptorSet::UdfFinal];
        assert(needed@ =~= spec_udf_initialize_descriptor_sets());
        self.udf_baker_resources.inventory.require_descriptor_sets(&needed)?;
        let bindings = vec![
            storage_image(DescriptorSet::UdfInit, 0, Image::DistanceTexture),
            storage_image(DescriptorSet::UdfFinal, 0, Image::DistanceTexture),
        ];
        assert(bindings@ =~= spec_udf_initialize_bindings());
        Ok(bindings)
    }

    /// Looks up the kernel of the first stage and records it.
    pub fn udf_initialize_compute_pass_1(&self, dimensions: &[u32; 3]) -> (r: Result<
        CommandList,
        BakeError,
    >)
        ensures
            match r {
                Ok(commands) => commands@ == spec_udf_initialize_commands(dimensions@)
                    && self.udf_baker_resources.inventory.programs_found(
                    spec_udf_initialize_programs(),
                ) is Ok,
                Err(e) => self.udf_baker_resources.inventory.programs_found(
                    spec_udf_initialize_programs(),
                ) == Err::<(), BakeError>(e),
            },
    {
        let needed = only(ComputeProgram::UdfInit);
        self.udf_baker_resources.inventory.require_programs(&needed)?;
        let commands = CommandList::from_vec(
            vec![
                Command::ImageBarriers(only(discarded(Image::DistanceTexture, Hazard::Execution))),
                Command::BindCompute {
                    program: ComputeProgram::UdfInit,
                    descriptor_set: DescriptorSet::UdfInit,
                },
                grid_dispatch(dimensions, 8),
            ],
        );
        assert(commands@ =~= spec_udf_initialize_commands(dimensions@));
        Ok(commands)
    }

    /// Looks up the kernel of the last stage and records it.
    pub fn udf_initialize_compute_pass_2(&self, dimensions: &[u32; 3]) -> (r: Result<
        CommandList,
        BakeError,
    >)
        ensures
            match r {
                Ok(commands) => commands@ == spec_udf_finalize_commands(dimensions@)
                    && self.udf_baker_resources.inventory.programs_found(
                    spec_udf_finalize_programs(),
                ) is Ok,
                Err(e) => self.udf_baker_resources.inventory.programs_found(
                    spec_udf_finalize_programs(),
                ) == Err::<(), BakeError>(e),
            },
    {
        let needed = only(ComputeProgram::UdfFinal);
        self.udf_baker_resources.inventory.require_programs(&needed)?;
        let commands = CommandList::from_vec(
            vec![
                Command::ImageBarriers(
                    only(discarded(Image::DistanceTexture, Hazard::WriteThenReadWrite)),
                ),
                Command::BindCompute {
                    program: ComputeProgram::UdfFinal,
                    descriptor_set: DescriptorSet::UdfFinal,
                },
                grid_dispatch(dimensions, 8),
            ],
        );
        assert(commands@ =~= spec_udf_finalize_commands(dimensions@));
        Ok(commands)
    }
}

} // verus!
