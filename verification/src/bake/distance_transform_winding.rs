//! The distance finalizer of the signed pipeline: from the nearest surface
//! voxel, the sign and the triangles of each voxel to the signed distance.

use vstd::prelude::*;
use crate::bake::{grid_dispatch, spec_grid_dispatch};
use crate::bake::find_sign::{spec_threshold_scale, threshold_scale};
use crate::baker::SDFBaker;
use crate::commands::{
    bind, general, only, ordered, sampled_image, storage_buffer, storage_image, Binding, Buffer,
    Command, CommandList, CommandView, Hazard, Image, PushValue,
};
use crate::error::BakeError;
use crate::programs::{ComputeProgram, DescriptorSet};
use crate::resources::{Extent, Requirement};

verus! {

/// The texture the field is written to.
pub open spec fn spec_dtw_requirements(dimensions: Seq<u32>) -> Seq<Requirement> {
    seq![
        Requirement::Image {
            image: Image::DistanceTexture,
            extent: Extent { width: dimensions[0], height: dimensions[1], depth: dimensions[2] },
        },
    ]
}

/// The parameter set of the stage.
pub open spec fn spec_dtw_descriptor_sets() -> Seq<DescriptorSet> {
    seq![DescriptorSet::DistanceTransformWinding]
}

/// What the stage writes into its parameter set, given the sign map and the
/// texture that hold the results of the stages before.
pub open spec fn spec_dtw_bindings(sign_map: Image, voxels_texture: Image) -> Seq<Binding> {
    seq![
        storage_buffer(DescriptorSet::DistanceTransformWinding, 0, Buffer::TriangleUvw),
        storage_buffer(DescriptorSet::DistanceTransformWinding, 1, Buffer::TrianglesInVoxels),
        storage_buffer(DescriptorSet::DistanceTransformWinding, 2, Buffer::AccumCounters),
        sampled_image(DescriptorSet::DistanceTransformWinding, 3, sign_map),
        sampled_image(DescriptorSet::DistanceTransformWinding, 4, voxels_texture),
        storage_buffer(DescriptorSet::DistanceTransformWinding, 5, Buffer::Voxels),
        storage_image(DescriptorSet::DistanceTransformWinding, 6, Image::DistanceTexture),
    ]
}

/// The kernel of the stage.
pub open spec fn spec_dtw_programs() -> Seq<ComputeProgram> {
    seq![ComputeProgram::DistanceTransformWinding]
}

/// The commands of the stage: fences on the flood's result and on what the
/// stage writes, then one pass over the grid with the threshold and the
/// surface offset of the settings. The threshold is scaled as everywhere
/// behind the sign resolver: by the number of rays where the first vote
/// was not smoothed.
pub open spec fn spec_dtw_commands(
    dimensions: Seq<u32>,
    voxels_texture: Image,
    sign_passes_count: i32,
) -> Seq<CommandView> {
    seq![
        CommandView::ImageBarriers(
            seq![
                general(voxels_texture, Hazard::WriteThenRead),
                general(Image::DistanceTexture, Hazard::Execution),
            ],
        ),
        CommandView::BufferBarriers(seq![ordered(Buffer::Voxels)]),
        bind(ComputeProgram::DistanceTransformWinding, DescriptorSet::DistanceTransformWinding),
        CommandView::PushConstants(
            seq![
                PushValue::InOutThreshold { scale: spec_threshold_scale(sign_passes_count) },
                PushValue::SurfaceOffset,
            ],
        ),
        spec_grid_dispatch(dimensions, 8),
    ]
}

impl SDFBaker {
    /// Asks for the texture the field is written to. Returns it if it has to
    /// be allocated.
    pub fn dtw_create_buffers_images(&mut self, dimensions: &[u32; 3]) -> (allocations: Vec<Requirement>)
        ensures
            allocations@ == old(self).sdf_baker_resources.cache.allocations(
                spec_dtw_requirements(dimensions@),
            ),
            final(self).sdf_baker_resources.cache == old(self).sdf_baker_resources.cache.acquired(
                spec_dtw_requirements(dimensions@),
            ),
            final(self).sdf_baker_resources.inventory == old(self).sdf_baker_resources.inventory,
            final(self).sdf_baker_resources.num_of_triangles == old(
                self,
            ).sdf_baker_resources.num_of_triangles,
            final(self).udf_baker_resources == old(self).udf_baker_resources,
            final(self).scene == old(self).scene,
            final(self).num_of_meshes == old(self).num_of_meshes,
            final(self).settings == old(self).settings,
            final(self).is_rotating_camera == old(self).is_rotating_camera,
    {
        let requirements = only(
            Requirement::Image {
                image: Image::DistanceTexture,
                extent: Extent { width: dimensions[0], height: dimensions[1], depth: dimensions[2] },
            },
        );
        assert(requirements@ =~= spec_dtw_requirements(dimensions@));
        self.sdf_baker_resources.cache.acquire(&requirements)
    }

    /// Looks up the parameter set of the stage and says what is written
    /// into it.
    pub fn dtw_update(&self, sign_map: Image, voxels_texture: Image) -> (r: Result<
        Vec<Binding>,
        BakeError,
    >)
        ensures
            match r {
                Ok(bindings) => bindings@ == spec_dtw_bindings(sign_map, voxels_texture)
                    && self.sdf_baker_resources.inventory.descriptor_sets_found(
                    spec_dtw_descriptor_sets(),
                ) is Ok,
                Err(e) => self.sdf_baker_resources.inventory.descriptor_sets_found(
                    spec_dtw_descriptor_sets(),
                ) == Err::<(), BakeError>(e),
            },
    {
        let needed = only(DescriptorSet::DistanceTransformWinding);
        assert(needed@ =~= spec_dtw_descriptor_sets());
        self.sdf_baker_resources.inventory.require_descriptor_sets(&needed)?;
        let bindings = vec![
            storage_buffer(DescriptorSet::DistanceTransformWinding, 0, Buffer::TriangleUvw),
            storage_buffer(DescriptorSet::DistanceTransformWinding, 1, Buffer::TrianglesInVoxels),
            storage_buffer(DescriptorSet::DistanceTransformWinding, 2, Buffer::AccumCounters),
            sampled_image(DescriptorSet::DistanceTransformWinding, 3, sign_map),
            sampled_image(DescriptorSet::DistanceTransformWinding, 4, voxels_texture),
            storage_buffer(DescriptorSet::DistanceTransformWinding, 5, Buffer::Voxels),
            storage_image(DescriptorSet::DistanceTransformWinding, 6, Image::DistanceTexture),
        ];
        assert(bindings@ =~= spec_dtw_bindings(sign_map, voxels_texture));
        Ok(bindings)
    }

    /// Looks up the kernel of the stage and records the pass that writes the
    /// field, with the threshold scaled for the smoothing the settings ask
    /// for.
    pub fn dtw_compute(&self, voxels_texture: Image, dimensions: &[u32; 3]) -> (r: Result<
        CommandList,
        BakeError,
    >)
        ensures
            match r {
                Ok(commands) => commands@ == spec_dtw_commands(
                    dimensions@,
                    voxels_texture,
                    self.settings.sign_passes_count,
                )
                    && self.sdf_baker_resources.inventory.programs_found(spec_dtw_programs()) is Ok,
                Err(e) => self.sdf_baker_resources.inventory.programs_found(spec_dtw_programs())
                    == Err::<(), BakeError>(e),
            },
    {
        let needed = only(ComputeProgram::DistanceTransformWinding);
        assert(needed@ =~= spec_dtw_programs());
        self.sdf_baker_resources.inventory.require_programs(&needed)?;
        let scale = threshold_scale(self.settings.sign_passes_count);
        let commands = CommandList::from_vec(
            vec![
                Command::ImageBarriers(
                    vec![
                        general(voxels_texture, Hazard::WriteThenRead),
                        general(Image::DistanceTexture, Hazard::Execution),
                    ],
                ),
                Command::BufferBarriers(only(ordered(Buffer::Voxels))),
                Command::BindCompute {
                    program: ComputeProgram::DistanceTransformWinding,
                    descriptor_set: DescriptorSet::DistanceTransformWinding,
                },
                Command::PushConstants(
                    vec![PushValue::InOutThreshold { scale }, PushValue::SurfaceOffset],
                ),
                grid_dispatch(dimensions, 8),
            ],
        );
        assert(commands@ =~= spec_dtw_commands(
            dimensions@,
            voxels_texture,
            self.settings.sign_passes_count,
        ));
        Ok(commands)
    }
}

} // verus!
