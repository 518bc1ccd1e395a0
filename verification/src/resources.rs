//! The resource cache: which buffers, images and pipelines exist, and with
//! what size. A resource is made when it is first asked for and made again
//! only when it is asked for with another size.

use vstd::prelude::*;
use crate::commands::{Buffer, Image, Projection};
use crate::programs::GraphicsProgram;

verus! {

/// Size of an image in texels; a flat image has depth 1.
#[derive(Clone, Copy, Debug, PartialEq, Eq, Structural)]
pub struct Extent {
    pub width: u32,
    pub height: u32,
    pub depth: u32,
}

/// A resource together with the size a stage needs it in.
#[derive(Clone, Copy, Debug, PartialEq, Eq, Structural)]
pub enum Requirement {
    /// A buffer of that many bytes.
    Buffer { buffer: Buffer, size: u64 },
    /// An image of that extent.
    Image { image: Image, extent: Extent },
    /// The rasterizing pipeline of one view, for a target of that extent.
    Pipeline { program: GraphicsProgram, projection: Projection, extent: Extent },
}

/// What exists, by role: `None` for a resource that is not there, else the
/// size it was made with.
#[derive(Clone, Copy, Debug, PartialEq, Eq, Structural)]
pub struct ResourceCache {
    pub triangle_uvw_buffer: Option<u64>,
    pub coord_flip_buffer: Option<u64>,
    pub aabb_buffer: Option<u64>,
    pub vertices_buffer: Option<u64>,
    pub triangles_in_voxels_buffer: Option<u64>,
    pub voxels_buffer: Option<u64>,
    pub counters_buffer: Option<u64>,
    pub in_sum_blocks_buffer: Option<u64>,
    pub sum_blocks_buffer: Option<u64>,
    pub accum_sum_blocks_buffer: Option<u64>,
    pub accum_counters_buffer: Option<u64>,
    pub tmp_buffer: Option<u64>,
    pub additional_sum_blocks_buffer: Option<u64>,
    pub jump_buffer: Option<u64>,
    pub jump_buffer_bis: Option<u64>,
    pub ray_map: Option<Extent>,
    pub sign_map: Option<Extent>,
    pub sign_map_bis: Option<Extent>,
    pub voxels_texture: Option<Extent>,
    pub voxels_texture_bis: Option<Extent>,
    pub distance_texture: Option<Extent>,
    pub render_target_xy: Option<Extent>,
    pub render_target_zx: Option<Extent>,
    pub render_target_yz: Option<Extent>,
    pub write_uvw_and_coverage_program_xy: Option<Extent>,
    pub write_uvw_and_coverage_program_zx: Option<Extent>,
    pub write_uvw_and_coverage_program_yz: Option<Extent>,
    pub write_triangle_ids_to_voxels_program_xy: Option<Extent>,
    pub write_triangle_ids_to_voxels_program_zx: Option<Extent>,
    pub write_triangle_ids_to_voxels_program_yz: Option<Extent>,
}

impl ResourceCache {
    /// The size of a buffer, if it exists.
    pub open spec fn spec_buffer(self, buffer: Buffer) -> Option<u64> {
        match buffer {
            Buffer::TriangleUvw => self.triangle_uvw_buffer,
            Buffer::CoordFlip => self.coord_flip_buffer,
            Buffer::Aabb => self.aabb_buffer,
            Buffer::Vertices => self.vertices_buffer,
            Buffer::TrianglesInVoxels => self.triangles_in_voxels_buffer,
            Buffer::Voxels => self.voxels_buffer,
            Buffer::Counters => self.counters_buffer,
            Buffer::InSumBlocks => self.in_sum_blocks_buffer,
            Buffer::SumBlocks => self.sum_blocks_buffer,
            Buffer::AccumSumBlocks => self.accum_sum_blocks_buffer,
            Buffer::AccumCounters => self.accum_counters_buffer,
            Buffer::Tmp => self.tmp_buffer,
            Buffer::AdditionalSumBlocks => self.additional_sum_blocks_buffer,
            Buffer::JumpBuffer => self.jump_buffer,
            Buffer::JumpBufferBis => self.jump_buffer_bis,
        }
    }

    /// The extent of an image, if it exists.
    pub open spec fn spec_image(self, image: Image) -> Option<Extent> {
        match image {
            Image::RayMap => self.ray_map,
            Image::SignMap => self.sign_map,
            Image::SignMapBis => self.sign_map_bis,
            Image::VoxelsTexture => self.voxels_texture,
            Image::VoxelsTextureBis => self.voxels_texture_bis,
            Image::DistanceTexture => self.distance_texture,
            Image::RenderTarget(Projection::XY) => self.render_target_xy,
            Image::RenderTarget(Projection::ZX) => self.render_target_zx,
            Image::RenderTarget(Projection::YZ) => self.render_target_yz,
        }
    }

    /// The target extent a pipeline was made for, if it exists.
    pub open spec fn spec_pipeline(self, program: GraphicsProgram, projection: Projection) -> Option<Extent> {
        match (program, projection) {
            (GraphicsProgram::WriteUvwAndCoverage, Projection::XY) => self.write_uvw_and_coverage_program_xy,
            (GraphicsProgram::WriteUvwAndCoverage, Projection::ZX) => self.write_uvw_and_coverage_program_zx,
            (GraphicsProgram::WriteUvwAndCoverage, Projection::YZ) => self.write_uvw_and_coverage_program_yz,
            (GraphicsProgram::WriteTriangleIdsToVoxels, Projection::XY) => self.write_triangle_ids_to_voxels_program_xy,
            (GraphicsProgram::WriteTriangleIdsToVoxels, Projection::ZX) => self.write_triangle_ids_to_voxels_program_zx,
            (GraphicsProgram::WriteTriangleIdsToVoxels, Projection::YZ) => self.write_triangle_ids_to_voxels_program_yz,
        }
    }

    /// Whether the resource exists in the size that is asked for.
    pub open spec fn satisfies(self, requirement: Requirement) -> bool {
        match requirement {
            Requirement::Buffer { buffer, size } => self.spec_buffer(buffer) == Some(size),
            Requirement::Image { image, extent } => self.spec_image(image) == Some(extent),
            Requirement::Pipeline { program, projection, extent } => self.spec_pipeline(
                program,
                projection,
            ) == Some(extent),
        }
    }

    /// The cache with one buffer set to a size.
    pub open spec fn with_buffer(self, buffer: Buffer, size: Option<u64>) -> ResourceCache {
        match buffer {
            Buffer::TriangleUvw => ResourceCache { triangle_uvw_buffer: size, ..self },
            Buffer::CoordFlip => ResourceCache { coord_flip_buffer: size, ..self },
            Buffer::Aabb => ResourceCache { aabb_buffer: size, ..self },
            Buffer::Vertices => ResourceCache { vertices_buffer: size, ..self },
            Buffer::TrianglesInVoxels => ResourceCache { triangles_in_voxels_buffer: size, ..self },
            Buffer::Voxels => ResourceCache { voxels_buffer: size, ..self },
            Buffer::Counters => ResourceCache { counters_buffer: size, ..self },
            Buffer::InSumBlocks => ResourceCache { in_sum_blocks_buffer: size, ..self },
            Buffer::SumBlocks => ResourceCache { sum_blocks_buffer: size, ..self },
            Buffer::AccumSumBlocks => ResourceCache { accum_sum_blocks_buffer: size, ..self },
            Buffer::AccumCounters => ResourceCache { accum_counters_buffer: size, ..self },
            Buffer::Tmp => ResourceCache { tmp_buffer: size, ..self },
            Buffer::AdditionalSumBlocks => ResourceCache { additional_sum_blocks_buffer: size, ..self },
            Buffer::JumpBuffer => ResourceCache { jump_buffer: size, ..self },
            Buffer::JumpBufferBis => ResourceCache { jump_buffer_bis: size, ..self },
        }
    }

    /// The cache with one image set to an extent.
    pub open spec fn with_image(self, image: Image, extent: Option<Extent>) -> ResourceCache {
        match image {
            Image::RayMap => ResourceCache { ray_map: extent, ..self },
            Image::SignMap => ResourceCache { sign_map: extent, ..self },
            Image::SignMapBis => ResourceCache { sign_map_bis: extent, ..self },
            Image::VoxelsTexture => ResourceCache { voxels_texture: extent, ..self },
            Image::VoxelsTextureBis => ResourceCache { voxels_texture_bis: extent, ..self },
            Image::DistanceTexture => ResourceCache { distance_texture: extent, ..self },
            Image::RenderTarget(Projection::XY) => ResourceCache { render_target_xy: extent, ..self },
            Image::RenderTarget(Projection::ZX) => ResourceCache { render_target_zx: extent, ..self },
            Image::RenderTarget(Projection::YZ) => ResourceCache { render_target_yz: extent, ..self },
        }
    }

    /// The cache with one pipeline set to a target extent.
    pub open spec fn with_pipeline(
        self,
        program: GraphicsProgram,
        projection: Projection,
        extent: Option<Extent>,
    ) -> ResourceCache {
        match (program, projection) {
            (GraphicsProgram::WriteUvwAndCoverage, Projection::XY) => ResourceCache { write_uvw_and_coverage_program_xy: extent, ..self },
            (GraphicsProgram::WriteUvwAndCoverage, Projection::ZX) => ResourceCache { write_uvw_and_coverage_program_zx: extent, ..self },
            (GraphicsProgram::WriteUvwAndCoverage, Projection::YZ) => ResourceCache { write_uvw_and_coverage_program_yz: extent, ..self },
            (GraphicsProgram::WriteTriangleIdsToVoxels, Projection::XY) => ResourceCache { write_triangle_ids_to_voxels_program_xy: extent, ..self },
            (GraphicsProgram::WriteTriangleIdsToVoxels, Projection::ZX) => ResourceCache { write_triangle_ids_to_voxels_program_zx: extent, ..self },
            (GraphicsProgram::WriteTriangleIdsToVoxels, Projection::YZ) => ResourceCache { write_triangle_ids_to_voxels_program_yz: extent, ..self },
        }
    }

    /// The cache once the resource exists in the size that is asked for.
    pub open spec fn with(self, requirement: Requirement) -> ResourceCache {
        match requirement {
            Requirement::Buffer { buffer, size } => self.with_buffer(buffer, Some(size)),
            Requirement::Image { image, extent } => self.with_image(image, Some(extent)),
            Requirement::Pipeline { program, projection, extent } => self.with_pipeline(
                program,
                projection,
                Some(extent),
            ),
        }
    }

    /// The cache without the resource.
    pub open spec fn without(self, requirement: Requirement) -> ResourceCache {
        match requirement {
            Requirement::Buffer { buffer, size } => self.with_buffer(buffer, None),
            Requirement::Image { image, extent } => self.with_image(image, None),
            Requirement::Pipeline { program, projection, extent } => self.with_pipeline(
                program,
                projection,
                None,
            ),
        }
    }

    /// The cache after a list of requirements was met, one after the other.
    pub open spec fn acquired(self, requirements: Seq<Requirement>) -> ResourceCache
        decreases requirements.len(),
    {
        if requirements.len() == 0 {
            self
        } else {
            self.acquired(requirements.drop_last()).with(requirements.last())
        }
    }

    /// Of a list of requirements, those that take an allocation when they are
    /// met one after the other: each one that the cache does not satisfy when
    /// its turn comes.
    pub open spec fn allocations(self, requirements: Seq<Requirement>) -> Seq<Requirement>
        decreases requirements.len(),
    {
        if requirements.len() == 0 {
            Seq::empty()
        } else {
            let before = self.allocations(requirements.drop_last());
            if self.acquired(requirements.drop_last()).satisfies(requirements.last()) {
                before
            } else {
                before.push(requirements.last())
            }
        }
    }

    /// A cache in which nothing exists.
    pub fn new() -> (cache: ResourceCache)
        ensures
            forall|buffer: Buffer| cache.spec_buffer(buffer) is None,
            forall|image: Image| cache.spec_image(image) is None,
            forall|program: GraphicsProgram, projection: Projection|
                cache.spec_pipeline(program, projection) is None,
    {
        ResourceCache {
            triangle_uvw_buffer: None,
            coord_flip_buffer: None,
            aabb_buffer: None,
            vertices_buffer: None,
            triangles_in_voxels_buffer: None,
            voxels_buffer: None,
            counters_buffer: None,
            in_sum_blocks_buffer: None,
            sum_blocks_buffer: None,
            accum_sum_blocks_buffer: None,
            accum_counters_buffer: None,
            tmp_buffer: None,
            additional_sum_blocks_buffer: None,
            jump_buffer: None,
            jump_buffer_bis: None,
            ray_map: None,
            sign_map: None,
            sign_map_bis: None,
            voxels_texture: None,
            voxels_texture_bis: None,
            distance_texture: None,
            render_target_xy: None,
            render_target_zx: None,
            render_target_yz: None,
            write_uvw_and_coverage_program_xy: None,
            write_uvw_and_coverage_program_zx: None,
            write_uvw_and_coverage_program_yz: None,
            write_triangle_ids_to_voxels_program_xy: None,
            write_triangle_ids_to_voxels_program_zx: None,
            write_triangle_ids_to_voxels_program_yz: None,
        }
    }

    /// The size of a buffer, if it exists.
    pub fn buffer(&self, buffer: Buffer) -> (size: Option<u64>)
        ensures
            size == self.spec_buffer(buffer),
    {
        match buffer {
            Buffer::TriangleUvw => self.triangle_uvw_buffer,
            Buffer::CoordFlip => self.coord_flip_buffer,
            Buffer::Aabb => self.aabb_buffer,
            Buffer::Vertices => self.vertices_buffer,
            Buffer::TrianglesInVoxels => self.triangles_in_voxels_buffer,
            Buffer::Voxels => self.voxels_buffer,
            Buffer::Counters => self.counters_buffer,
            Buffer::InSumBlocks => self.in_sum_blocks_buffer,
            Buffer::SumBlocks => self.sum_blocks_buffer,
            Buffer::AccumSumBlocks => self.accum_sum_blocks_buffer,
            Buffer::AccumCounters => self.accum_counters_buffer,
            Buffer::Tmp => self.tmp_buffer,
            Buffer::AdditionalSumBlocks => self.additional_sum_blocks_buffer,
            Buffer::JumpBuffer => self.jump_buffer,
            Buffer::JumpBufferBis => self.jump_buffer_bis,
        }
    }

    /// The extent of an image, if it exists.
    pub fn image(&self, image: Image) -> (extent: Option<Extent>)
        ensures
            extent == self.spec_image(image),
    {
        match image {
            Image::RayMap => self.ray_map,
            Image::SignMap => self.sign_map,
            Image::SignMapBis => self.sign_map_bis,
            Image::VoxelsTexture => self.voxels_texture,
            Image::VoxelsTextureBis => self.voxels_texture_bis,
            Image::DistanceTexture => self.distance_texture,
            Image::RenderTarget(Projection::XY) => self.render_target_xy,
            Image::RenderTarget(Projection::ZX) => self.render_target_zx,
            Image::RenderTarget(Projection::YZ) => self.render_target_yz,
        }
    }

    /// The target extent a pipeline was made for, if it exists.
    pub fn pipeline(&self, program: GraphicsProgram, projection: Projection) -> (extent: Option<Extent>)
        ensures
            extent == self.spec_pipeline(program, projection),
    {
        match (program, projection) {
            (GraphicsProgram::WriteUvwAndCoverage, Projection::XY) => self.write_uvw_and_coverage_program_xy,
            (GraphicsProgram::WriteUvwAndCoverage, Projection::ZX) => self.write_uvw_and_coverage_program_zx,
            (GraphicsProgram::WriteUvwAndCoverage, Projection::YZ) => self.write_uvw_and_coverage_program_yz,
            (GraphicsProgram::WriteTriangleIdsToVoxels, Projection::XY) => self.write_triangle_ids_to_voxels_program_xy,
            (GraphicsProgram::WriteTriangleIdsToVoxels, Projection::ZX) => self.write_triangle_ids_to_voxels_program_zx,
            (GraphicsProgram::WriteTriangleIdsToVoxels, Projection::YZ) => self.write_triangle_ids_to_voxels_program_yz,
        }
    }

    fn set_buffer(&mut self, buffer: Buffer, size: Option<u64>)
        ensures
            *final(self) == old(self).with_buffer(buffer, size),
    {
        match buffer {
            Buffer::TriangleUvw => {
                self.triangle_uvw_buffer = size;
            },
            Buffer::CoordFlip => {
                self.coord_flip_buffer = size;
            },
            Buffer::Aabb => {
                self.aabb_buffer = size;
            },
            Buffer::Vertices => {
                self.vertices_buffer = size;
            },
            Buffer::TrianglesInVoxels => {
                self.triangles_in_voxels_buffer = size;
            },
            Buffer::Voxels => {
                self.voxels_buffer = size;
            },
            Buffer::Counters => {
                self.counters_buffer = size;
            },
            Buffer::InSumBlocks => {
                self.in_sum_blocks_buffer = size;
            },
            Buffer::SumBlocks => {
                self.sum_blocks_buffer = size;
            },
            Buffer::AccumSumBlocks => {
                self.accum_sum_blocks_buffer = size;
            },
            Buffer::AccumCounters => {
                self.accum_counters_buffer = size;
            },
            Buffer::Tmp => {
                self.tmp_buffer = size;
            },
            Buffer::AdditionalSumBlocks => {
                self.additional_sum_blocks_buffer = size;
            },
            Buffer::JumpBuffer => {
                self.jump_buffer = size;
            },
            Buffer::JumpBufferBis => {
                self.jump_buffer_bis = size;
            },
        }
    }

    fn set_image(&mut self, image: Image, extent: Option<Extent>)
        ensures
            *final(self) == old(self).with_image(image, extent),
    {
        match image {
            Image::RayMap => {
                self.ray_map = extent;
            },
            Image::SignMap => {
                self.sign_map = extent;
            },
            Image::SignMapBis => {
                self.sign_map_bis = extent;
            },
            Image::VoxelsTexture => {
                self.voxels_texture = extent;
            },
            Image::VoxelsTextureBis => {
                self.voxels_texture_bis = extent;
            },
            Image::DistanceTexture => {
                self.distance_texture = extent;
            },
            Image::RenderTarget(Projection::XY) => {
                self.render_target_xy = extent;
            },
            Image::RenderTarget(Projection::ZX) => {
                self.render_target_zx = extent;
            },
            Image::RenderTarget(Projection::YZ) => {
                self.render_target_yz = extent;
            },
        }
    }

    fn set_pipeline(&mut self, program: GraphicsProgram, projection: Projection, extent: Option<Extent>)
        ensures
            *final(self) == old(self).with_pipeline(program, projection, extent),
    {
        match (program, projection) {
            (GraphicsProgram::WriteUvwAndCoverage, Projection::XY) => {
                self.write_uvw_and_coverage_program_xy = extent;
            },
            (GraphicsProgram::WriteUvwAndCoverage, Projection::ZX) => {
                self.write_uvw_and_coverage_program_zx = extent;
            },
            (GraphicsProgram::WriteUvwAndCoverage, Projection::YZ) => {
                self.write_uvw_and_coverage_program_yz = extent;
            },
            (GraphicsProgram::WriteTriangleIdsToVoxels, Projection::XY) => {
                self.write_triangle_ids_to_voxels_program_xy = extent;
            },
            (GraphicsProgram::WriteTriangleIdsToVoxels, Projection::ZX) => {
                self.write_triangle_ids_to_voxels_program_zx = extent;
            },
            (GraphicsProgram::WriteTriangleIdsToVoxels, Projection::YZ) => {
                self.write_triangle_ids_to_voxels_program_yz = extent;
            },
        }
    }

    /// Ask for a resource in a size. Says whether it has to be allocated:
    /// that is when it does not exist yet or exists in another size. After
    /// the call the cache holds it in the size asked for, and every other
    /// resource as before.
    pub fn request(&mut self, requirement: Requirement) -> (allocate: bool)
        ensures
            allocate == !old(self).satisfies(requirement),
            *final(self) == old(self).with(requirement),
            final(self).satisfies(requirement),
            !allocate ==> *final(self) == *old(self),
    {
        match requirement {
            Requirement::Buffer { buffer, size } => {
                let hit = self.buffer(buffer) == Some(size);
                self.set_buffer(buffer, Some(size));
                !hit
            },
            Requirement::Image { image, extent } => {
                let hit = self.image(image) == Some(extent);
                self.set_image(image, Some(extent));
                !hit
            },
            Requirement::Pipeline { program, projection, extent } => {
                let hit = self.pipeline(program, projection) == Some(extent);
                self.set_pipeline(program, projection, Some(extent));
                !hit
            },
        }
    }

    /// Forget a resource, as after an allocation that failed: it will be
    /// allocated when it is next asked for.
    pub fn release(&mut self, requirement: Requirement)
        ensures
            *final(self) == old(self).without(requirement),
            !final(self).satisfies(requirement),
    {
        match requirement {
            Requirement::Buffer { buffer, size } => {
                self.set_buffer(buffer, None);
            },
            Requirement::Image { image, extent } => {
                self.set_image(image, None);
            },
            Requirement::Pipeline { program, projection, extent } => {
                self.set_pipeline(program, projection, None);
            },
        }
    }

    /// Meet a list of requirements one after the other. Returns those that
    /// have to be allocated, in their order.
    pub fn acquire(&mut self, requirements: &Vec<Requirement>) -> (allocations: Vec<Requirement>)
        ensures
            *final(self) == old(self).acquired(requirements@),
            allocations@ == old(self).allocations(requirements@),
    {
        let mut allocations: Vec<Requirement> = Vec::new();
        let mut i: usize = 0;
        while i < requirements.len()
            invariant
                i <= requirements.len(),
                *self == old(self).acquired(requirements@.take(i as int)),
                allocations@ == old(self).allocations(requirements@.take(i as int)),
            decreases requirements.len() - i,
        {
            let requirement = requirements[i];
            proof {
                assert(requirements@.take(i + 1).drop_last() =~= requirements@.take(i as int));
                assert(requirements@.take(i + 1).last() == requirement);
            }
            if self.request(requirement) {
                allocations.push(requirement);
            }
            i = i + 1;
        }
        proof {
            assert(requirements@.take(i as int) =~= requirements@);
        }
        allocations
    }
}

/// Meeting two lists of requirements one after the other is meeting the
/// joined list: the cache ends up the same, and the same allocations are
/// made in the same order.
pub proof fn lemma_acquire_concat(cache: ResourceCache, first: Seq<Requirement>, second: Seq<Requirement>)
    ensures
        cache.acquired(first + second) == cache.acquired(first).acquired(second),
        cache.allocations(first + second) == cache.allocations(first) + cache.acquired(
            first,
        ).allocations(second),
    decreases second.len(),
{
    if second.len() == 0 {
        assert(first + second =~= first);
        assert(cache.allocations(first) + Seq::<Requirement>::empty() =~= cache.allocations(first));
    } else {
        let joined = first + second;
        assert(joined.drop_last() =~= first + second.drop_last());
        assert(joined.last() == second.last());
        lemma_acquire_concat(cache, first, second.drop_last());
        let before = cache.allocations(first) + cache.acquired(first).allocations(
            second.drop_last(),
        );
        if cache.acquired(joined.drop_last()).satisfies(joined.last()) {
        } else {
            assert(before.push(second.last()) =~= cache.allocations(first) + cache.acquired(
                first,
            ).allocations(second.drop_last()).push(second.last()));
        }
    }
}

/// The resource lifecycle: a resource is allocated only when it is asked for
/// in a size it does not have. Asking a second time for what was just asked
/// for allocates nothing and leaves the cache as it is.
pub proof fn lemma_request_again_is_free(cache: ResourceCache, requirement: Requirement)
    ensures
        cache.with(requirement).satisfies(requirement),
        cache.with(requirement).with(requirement) == cache.with(requirement),
        cache.satisfies(requirement) ==> cache.with(requirement) == cache,
        cache.with(requirement).allocations(seq![requirement]) == Seq::<Requirement>::empty(),
{
    let after = cache.with(requirement);
    let one = seq![requirement];
    let none = Seq::<Requirement>::empty();
    assert(one.drop_last() =~= none);
    assert(one.last() == requirement);
    assert(after.acquired(none) == after);
    assert(after.allocations(none) == none);
    assert(after.allocations(one) == none);
}

} // verus!
