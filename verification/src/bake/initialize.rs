//! The first stage of the signed pipeline: clears the per-voxel buffers and
//! the maps of the stages that follow.

use vstd::prelude::*;
use crate::bake::{grid_dispatch, spec_grid_dispatch};
use crate::baker::SDFBaker;
use crate::commands::{
    bind, ordered, storage_buffer, storage_image, Binding, Buffer, Command, CommandList,
    CommandView, Image,
};
use crate::error::BakeError;
use crate::programs::{ComputeProgram, DescriptorSet};

verus! {

/// The parameter set of the stage.
pub open spec fn spec_initialize_descriptor_sets() -> Seq<DescriptorSet> {
    seq![DescriptorSet::Init]
}

/// What the stage writes into its parameter set: everything it clears.
pub open spec fn spec_initialize_bindings() -> Seq<Binding> {
    seq![
        storage_buffer(DescriptorSet::Init, 0, Buffer::Voxels),
        storage_buffer(DescriptorSet::Init, 1, Buffer::Counters),
        storage_buffer(DescriptorSet::Init, 2, Buffer::AccumCounters),
        storage_image(DescriptorSet::Init, 3, Image::RayMap),
        storage_image(DescriptorSet::Init, 4, Image::SignMap),
        storage_image(DescriptorSet::Init, 5, Image::SignMapBis),
        storage_image(DescriptorSet::Init, 6, Image::VoxelsTexture),
        storage_image(DescriptorSet::Init, 7, Image::VoxelsTextureBis),
    ]
}

/// The kernel of the stage.
pub open spec fn spec_initialize_programs() -> Seq<ComputeProgram> {
    seq![ComputeProgram::Init]
}

/// The commands of the stage: a fence that orders the clearing after what
/// used the buffers before, and one pass over the grid.
pub open spec fn spec_initialize_commands(dimensions: Seq<u32>) -> Seq<CommandView> {
    seq![
        CommandView::BufferBarriers(
            seq![ordered(Buffer::Voxels), ordered(Buffer::Counters), ordered(Buffer::AccumCounters)],
        ),
        bind(ComputeProgram::Init, DescriptorSet::Init),
        spec_grid_dispatch(dimensions, 8),
    ]
}

impl SDFBaker {
    /// Looks up the parameter set of the stage and says what is written
    /// into it.
    pub fn initialize_update(&self) -> (r: Result<Vec<Binding>, BakeError>)
        ensures
            match r {
                Ok(bindings) => bindings@ == spec_initialize_bindings()
                    && self.sdf_baker_resources.inventory.descriptor_sets_found(
                    spec_initialize_descriptor_sets(),
                ) is Ok,
                Err(e) => self.sdf_baker_resources.inventory.descriptor_sets_found(
                    spec_initialize_descriptor_sets(),
                ) == Err::<(), BakeError>(e),
            },
    {
        let needed = vec![DescriptorSet::Init];
        assert(needed@ =~= spec_initialize_descriptor_sets());
        self.sdf_baker_resources.inventory.require_descriptor_sets(&needed)?;
        let bindings = vec![
            storage_buffer(DescriptorSet::Init, 0, Buffer::Voxels),
            storage_buffer(DescriptorSet::Init, 1, Buffer::Counters),
            storage_buffer(DescriptorSet::Init, 2, Buffer::AccumCounters),
            storage_image(DescriptorSet::Init, 3, Image::RayMap),
            storage_image(DescriptorSet::Init, 4, Image::SignMap),
            storage_image(DescriptorSet::Init, 5, Image::SignMapBis),
            storage_image(DescriptorSet::Init, 6, Image::VoxelsTexture),
            storage_image(DescriptorSet::Init, 7, Image::VoxelsTextureBis),
        ];
        assert(bindings@ =~= spec_initialize_bindings());
        Ok(bindings)
    }

    /// Looks up the kernel of the stage and records the clearing pass.
    pub fn initialize_compute(&self, dimensions: &[u32; 3]) -> (r: Result<CommandList, BakeError>)
        ensures
            match r {
                Ok(commands) => commands@ == spec_initialize_commands(dimensions@)
                    && self.sdf_baker_resources.inventory.programs_found(spec_initialize_programs())
                    is Ok,
                Err(e) => self.sdf_baker_resources.inventory.programs_found(
                    spec_initialize_programs(),
                ) == Err::<(), BakeError>(e),
            },
    {
        let needed = vec![ComputeProgram::Init];
        assert(needed@ =~= spec_initialize_programs());
        self.sdf_baker_resources.inventory.require_programs(&needed)?;
        let commands = CommandList::from_vec(
            vec![
                Command::BufferBarriers(
                    vec![
                        ordered(Buffer::Voxels),
                        ordered(Buffer::Counters),
                        ordered(Buffer::AccumCounters),
                    ],
                ),
                Command::BindCompute { program: ComputeProgram::Init, descriptor_set: DescriptorSet::Init },
                grid_dispatch(dimensions, 8),
            ],
        );
        assert(commands@ =~= spec_initialize_commands(dimensions@));
        Ok(commands)
    }
}

} // verus!
