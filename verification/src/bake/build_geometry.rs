//! The voxelizer. A compute pass brings the triangles into grid space, picks
//! for each the view it is rasterized through and widens its footprint. A
//! first draw pass counts, per voxel, the triangles that cover it; once the
//! counts are turned into offsets, a second draw pass writes each triangle
//! into the list of every voxel it covers.

use vstd::prelude::*;
use crate::bake::{group_count, spec_group_count};
use crate::baker::SDFBaker;
use crate::commands::{
    bind, dispatch, external, flushed, on_render_targets, only, ordered, spec_on_render_targets,
    storage_buffer, Binding, BindingKind, Buffer, Command, CommandList, CommandView, Hazard, Image,
    ImageLayout, Projection, PushValue, Resource,
};
use crate::error::BakeError;
use crate::programs::{ComputeProgram, DescriptorSet, GraphicsProgram};
use crate::resources::{Extent, Requirement};

verus! {

/// Triangles one thread group of the geometry kernels handles.
pub const TRIANGLES_PER_GROUP: u32 = 64;

/// Most triangles a mesh can have for its vertex count to be drawn.
pub const MAX_TRIANGLES: u32 = 1431655765;

/// The extent of the render target of a view: the two grid axes the view
/// looks at.
pub open spec fn spec_target_extent(dimensions: Seq<u32>, projection: Projection) -> Extent {
    match projection {
        Projection::XY => Extent { width: dimensions[0], height: dimensions[1], depth: 1 },
        Projection::ZX => Extent { width: dimensions[2], height: dimensions[0], depth: 1 },
        Projection::YZ => Extent { width: dimensions[1], height: dimensions[2], depth: 1 },
    }
}

/// What one view needs: its render target and the two pipelines that draw
/// into it.
pub open spec fn spec_view_requirements(dimensions: Seq<u32>, projection: Projection) -> Seq<
    Requirement,
> {
    let extent = spec_target_extent(dimensions, projection);
    seq![
        Requirement::Image { image: Image::RenderTarget(projection), extent },
        Requirement::Pipeline { program: GraphicsProgram::WriteUvwAndCoverage, projection, extent },
        Requirement::Pipeline {
            program: GraphicsProgram::WriteTriangleIdsToVoxels,
            projection,
            extent,
        },
    ]
}

/// The per-triangle buffers and the compacted triangle list, with their
/// sizes in bytes.
pub open spec fn spec_triangle_requirements(num_of_triangles: u32, upper_bound_count: u32) -> Seq<
    Requirement,
> {
    let t = num_of_triangles as int;
    seq![
        Requirement::Buffer { buffer: Buffer::TriangleUvw, size: (t * 48) as u64 },
        Requirement::Buffer { buffer: Buffer::CoordFlip, size: (t * 4) as u64 },
        Requirement::Buffer { buffer: Buffer::Aabb, size: (t * 16) as u64 },
        Requirement::Buffer { buffer: Buffer::Vertices, size: (t * 48) as u64 },
        Requirement::Buffer {
            buffer: Buffer::TrianglesInVoxels,
            size: (upper_bound_count as int * 4) as u64,
        },
    ]
}

/// Everything the voxelizer needs.
pub open spec fn spec_build_geometry_requirements(
    num_of_triangles: u32,
    dimensions: Seq<u32>,
    upper_bound_count: u32,
) -> Seq<Requirement> {
    spec_triangle_requirements(num_of_triangles, upper_bound_count) + spec_view_requirements(
        dimensions,
        Projection::XY,
    ) + spec_view_requirements(dimensions, Projection::ZX) + spec_view_requirements(
        dimensions,
        Projection::YZ,
    )
}

/// The parameter sets of the stage, in the order they are looked up.
pub open spec fn spec_build_geometry_descriptor_sets() -> Seq<DescriptorSet> {
    seq![
        DescriptorSet::GenTriInUvw,
        DescriptorSet::CalTriDir,
        DescriptorSet::ConservativeRasterization,
        DescriptorSet::WriteUvwAndCoverage,
        DescriptorSet::WriteTriangleIdsToVoxels,
    ]
}

/// What the stage writes into its parameter sets.
pub open spec fn spec_build_geometry_bindings() -> Seq<Binding> {
    seq![
        external(DescriptorSet::GenTriInUvw, 0, BindingKind::UniformBuffer, Resource::MeshUniform),
        external(DescriptorSet::GenTriInUvw, 1, BindingKind::StorageBuffer, Resource::MeshIndices),
        external(DescriptorSet::GenTriInUvw, 2, BindingKind::StorageBuffer, Resource::MeshVertices),
        storage_buffer(DescriptorSet::GenTriInUvw, 3, Buffer::TriangleUvw),
        external(DescriptorSet::CalTriDir, 0, BindingKind::UniformBuffer, Resource::MeshUniform),
        external(DescriptorSet::CalTriDir, 1, BindingKind::StorageBuffer, Resource::MeshIndices),
        external(DescriptorSet::CalTriDir, 2, BindingKind::StorageBuffer, Resource::MeshVertices),
        storage_buffer(DescriptorSet::CalTriDir, 3, Buffer::CoordFlip),
        external(
            DescriptorSet::ConservativeRasterization,
            0,
            BindingKind::UniformBuffer,
            Resource::MeshUniform,
        ),
        external(
            DescriptorSet::ConservativeRasterization,
            1,
            BindingKind::StorageBuffer,
            Resource::MeshIndices,
        ),
        external(
            DescriptorSet::ConservativeRasterization,
            2,
            BindingKind::StorageBuffer,
            Resource::MeshVertices,
        ),
        external(
            DescriptorSet::ConservativeRasterization,
            3,
            BindingKind::UniformBuffer,
            Resource::RasterizationUniform,
        ),
        storage_buffer(DescriptorSet::ConservativeRasterization, 4, Buffer::CoordFlip),
        storage_buffer(DescriptorSet::ConservativeRasterization, 5, Buffer::Aabb),
        storage_buffer(DescriptorSet::ConservativeRasterization, 6, Buffer::Vertices),
        storage_buffer(DescriptorSet::WriteUvwAndCoverage, 0, Buffer::Vertices),
        storage_buffer(DescriptorSet::WriteUvwAndCoverage, 1, Buffer::CoordFlip),
        storage_buffer(DescriptorSet::WriteUvwAndCoverage, 2, Buffer::Aabb),
        storage_buffer(DescriptorSet::WriteUvwAndCoverage, 3, Buffer::Voxels),
        storage_buffer(DescriptorSet::WriteUvwAndCoverage, 4, Buffer::Counters),
        storage_buffer(DescriptorSet::WriteTriangleIdsToVoxels, 0, Buffer::Vertices),
        storage_buffer(DescriptorSet::WriteTriangleIdsToVoxels, 1, Buffer::CoordFlip),
        storage_buffer(DescriptorSet::WriteTriangleIdsToVoxels, 2, Buffer::Aabb),
        storage_buffer(DescriptorSet::WriteTriangleIdsToVoxels, 4, Buffer::AccumCounters),
        storage_buffer(DescriptorSet::WriteTriangleIdsToVoxels, 5, Buffer::TrianglesInVoxels),
    ]
}

/// The kernels of the compute pass, in the order they are looked up.
pub open spec fn spec_build_geometry_programs() -> Seq<ComputeProgram> {
    seq![
        ComputeProgram::GenTriInUvw,
        ComputeProgram::CalTriDir,
        ComputeProgram::ConservativeRasterization,
    ]
}

/// One dispatch with a thread per triangle.
pub open spec fn spec_triangle_dispatch(num_of_triangles: u32) -> CommandView {
    dispatch(
        spec_group_count(num_of_triangles as int, TRIANGLES_PER_GROUP as int) as u32,
        1,
        1,
    )
}

/// The push constant that names a view.
pub open spec fn spec_view_constant(projection: Projection) -> CommandView {
    CommandView::PushConstants(seq![PushValue::U32(projection.spec_index())])
}

/// The commands of the compute pass: the triangles in grid space and their
/// directions, then the widening, once per view. A triangle belongs to one
/// view only, so nothing separates the three.
pub open spec fn spec_build_geometry_commands(num_of_triangles: u32) -> Seq<CommandView> {
    seq![
        CommandView::BufferBarriers(seq![ordered(Buffer::TriangleUvw), ordered(Buffer::CoordFlip)]),
        bind(ComputeProgram::GenTriInUvw, DescriptorSet::GenTriInUvw),
        spec_triangle_dispatch(num_of_triangles),
        bind(ComputeProgram::CalTriDir, DescriptorSet::CalTriDir),
        spec_triangle_dispatch(num_of_triangles),
        CommandView::BufferBarriers(
            seq![ordered(Buffer::Aabb), ordered(Buffer::Vertices), flushed(Buffer::CoordFlip)],
        ),
        bind(ComputeProgram::ConservativeRasterization, DescriptorSet::ConservativeRasterization),
        spec_view_constant(Projection::XY),
        spec_triangle_dispatch(num_of_triangles),
        spec_view_constant(Projection::ZX),
        spec_triangle_dispatch(num_of_triangles),
        spec_view_constant(Projection::YZ),
        spec_triangle_dispatch(num_of_triangles),
    ]
}

/// Drawing all triangles through one view with one of the two programs,
/// behind a fence on the two buffers the program works on.
pub open spec fn spec_draw_view(
    pipeline: GraphicsProgram,
    fence: Seq<crate::commands::BufferBarrier>,
    num_of_triangles: u32,
    dimensions: Seq<u32>,
    projection: Projection,
) -> Seq<CommandView> {
    let extent = spec_target_extent(dimensions, projection);
    seq![
        CommandView::BufferBarriers(fence),
        CommandView::BeginRendering {
            target: projection,
            width: extent.width,
            height: extent.height,
        },
        CommandView::SetViewport { width: extent.width, height: extent.height },
        CommandView::BindGraphics {
            pipeline,
            projection,
            descriptor_set: pipeline.spec_descriptor_set(),
        },
        spec_view_constant(projection),
        CommandView::Draw { vertex_count: (num_of_triangles * 3) as u32 },
        CommandView::EndRendering,
    ]
}

/// Drawing all triangles through the three views.
pub open spec fn spec_draw_views(
    pipeline: GraphicsProgram,
    fence: Seq<crate::commands::BufferBarrier>,
    num_of_triangles: u32,
    dimensions: Seq<u32>,
) -> Seq<CommandView> {
    spec_draw_view(pipeline, fence, num_of_triangles, dimensions, Projection::XY) + spec_draw_view(
        pipeline,
        fence,
        num_of_triangles,
        dimensions,
        Projection::ZX,
    ) + spec_draw_view(pipeline, fence, num_of_triangles, dimensions, Projection::YZ)
}

/// The fence before each view of the counting pass: the voxel buffer is
/// written again, the counters are read and added to.
pub open spec fn spec_coverage_fence() -> Seq<crate::commands::BufferBarrier> {
    seq![ordered(Buffer::Voxels), flushed(Buffer::Counters)]
}

/// The fence before each view of the scattering pass: the triangle list is
/// written, the offsets are read and claimed from.
pub open spec fn spec_scatter_fence() -> Seq<crate::commands::BufferBarrier> {
    seq![ordered(Buffer::TrianglesInVoxels), flushed(Buffer::AccumCounters)]
}

/// The commands of the counting pass.
pub open spec fn spec_draw_pass_1_commands(num_of_triangles: u32, dimensions: Seq<u32>) -> Seq<
    CommandView,
> {
    seq![
        CommandView::BufferBarriers(seq![flushed(Buffer::Aabb), flushed(Buffer::Vertices)]),
        CommandView::ImageBarriers(
            spec_on_render_targets(
                ImageLayout::Undefined,
                ImageLayout::ColorAttachment,
                Hazard::BeginAttachment,
            ),
        ),
    ] + spec_draw_views(
        GraphicsProgram::WriteUvwAndCoverage,
        spec_coverage_fence(),
        num_of_triangles,
        dimensions,
    ) + seq![
        CommandView::ImageBarriers(
            spec_on_render_targets(
                ImageLayout::ColorAttachment,
                ImageLayout::ShaderReadOnly,
                Hazard::AttachmentThenSampled,
            ),
        ),
    ]
}

/// The commands of the scattering pass.
pub open spec fn spec_draw_pass_2_commands(num_of_triangles: u32, dimensions: Seq<u32>) -> Seq<
    CommandView,
> {
    seq![
        CommandView::ImageBarriers(
            spec_on_render_targets(
                ImageLayout::ShaderReadOnly,
                ImageLayout::ColorAttachment,
                Hazard::SampledThenAttachment,
            ),
        ),
    ] + spec_draw_views(
        GraphicsProgram::WriteTriangleIdsToVoxels,
        spec_scatter_fence(),
        num_of_triangles,
        dimensions,
    ) + seq![
        CommandView::ImageBarriers(
            spec_on_render_targets(
                ImageLayout::ColorAttachment,
                ImageLayout::ShaderReadOnly,
                Hazard::AttachmentThenSampled,
            ),
        ),
    ]
}

/// The extent of the render target of a view.
pub fn target_extent(dimensions: &[u32; 3], projection: Projection) -> (extent: Extent)
    ensures
        extent == spec_target_extent(dimensions@, projection),
{
    match projection {
        Projection::XY => Extent { width: dimensions[0], height: dimensions[1], depth: 1 },
        Projection::ZX => Extent { width: dimensions[2], height: dimensions[0], depth: 1 },
        Projection::YZ => Extent { width: dimensions[1], height: dimensions[2], depth: 1 },
    }
}

fn view_constant(projection: Projection) -> (command: Command)
    ensures
        command@ == spec_view_constant(projection),
{
    Command::PushConstants(only(PushValue::U32(projection.index())))
}

fn triangle_dispatch(num_of_triangles: u32) -> (command: Command)
    ensures
        command@ == spec_triangle_dispatch(num_of_triangles),
{
    Command::Dispatch { x: group_count(num_of_triangles, TRIANGLES_PER_GROUP), y: 1, z: 1 }
}

fn draw_view(
    pipeline: GraphicsProgram,
    fence: Vec<crate::commands::BufferBarrier>,
    num_of_triangles: u32,
    dimensions: &[u32; 3],
    projection: Projection,
) -> (commands: CommandList)
    requires
        num_of_triangles <= MAX_TRIANGLES,
    ensures
        commands@ == spec_draw_view(pipeline, fence@, num_of_triangles, dimensions@, projection),
{
    let extent = target_extent(dimensions, projection);
    let ghost barriers = fence@;
    let commands = CommandList::from_vec(
        vec![
            Command::BufferBarriers(fence),
            Command::BeginRendering { target: projection, width: extent.width, height: extent.height },
            Command::SetViewport { width: extent.width, height: extent.height },
            Command::BindGraphics { pipeline, projection, descriptor_set: pipeline.descriptor_set() },
            view_constant(projection),
            Command::Draw { vertex_count: num_of_triangles * 3 },
            Command::EndRendering,
        ],
    );
    assert(commands@ =~= spec_draw_view(
        pipeline,
        barriers,
        num_of_triangles,
        dimensions@,
        projection,
    ));
    commands
}

fn coverage_fence() -> (fence: Vec<crate::commands::BufferBarrier>)
    ensures
        fence@ == spec_coverage_fence(),
{
    vec![ordered(Buffer::Voxels), flushed(Buffer::Counters)]
}

fn scatter_fence() -> (fence: Vec<crate::commands::BufferBarrier>)
    ensures
        fence@ == spec_scatter_fence(),
{
    vec![ordered(Buffer::TrianglesInVoxels), flushed(Buffer::AccumCounters)]
}

fn view_requirements(dimensions: &[u32; 3], projection: Projection, requirements: &mut Vec<Requirement>)
    ensures
        final(requirements)@ == old(requirements)@ + spec_view_requirements(dimensions@, projection),
{
    let extent = target_extent(dimensions, projection);
    requirements.push(Requirement::Image { image: Image::RenderTarget(projection), extent });
    requirements.push(
        Requirement::Pipeline { program: GraphicsProgram::WriteUvwAndCoverage, projection, extent },
    );
    requirements.push(
        Requirement::Pipeline { program: GraphicsProgram::WriteTriangleIdsToVoxels, projection, extent },
    );
    assert(requirements@ =~= old(requirements)@ + spec_view_requirements(dimensions@, projection));
}

impl SDFBaker {
    /// Asks for everything the voxelizer needs. Returns what has to be
    /// allocated, in the order it is asked for. The triangle count is noted
    /// when the vertices buffer is made anew.
    pub fn build_geometry_create_buffers_images(
        &mut self,
        num_of_triangles: u32,
        dimensions: &[u32; 3],
        upper_bound_count: u32,
    ) -> (allocations: Vec<Requirement>)
        ensures
            allocations@ == old(self).sdf_baker_resources.cache.allocations(
                spec_build_geometry_requirements(num_of_triangles, dimensions@, upper_bound_count),
            ),
            final(self).sdf_baker_resources.cache == old(self).sdf_baker_resources.cache.acquired(
                spec_build_geometry_requirements(num_of_triangles, dimensions@, upper_bound_count),
            ),
            final(self).sdf_baker_resources.num_of_triangles == (if old(
                self,
            ).sdf_baker_resources.cache.spec_buffer(Buffer::Vertices) == Some(
                (num_of_triangles * 48) as u64,
            ) {
                old(self).sdf_baker_resources.num_of_triangles
            } else {
                num_of_triangles
            }),
            final(self).sdf_baker_resources.inventory == old(self).sdf_baker_resources.inventory,
            final(self).udf_baker_resources == old(self).udf_baker_resources,
            final(self).scene == old(self).scene,
            final(self).num_of_meshes == old(self).num_of_meshes,
            final(self).settings == old(self).settings,
            final(self).is_rotating_camera == old(self).is_rotating_camera,
    {
        let t = num_of_triangles as u64;
        let vertices_size = t * 48;
        let mut requirements = vec![
            Requirement::Buffer { buffer: Buffer::TriangleUvw, size: t * 48 },
            Requirement::Buffer { buffer: Buffer::CoordFlip, size: t * 4 },
            Requirement::Buffer { buffer: Buffer::Aabb, size: t * 16 },
            Requirement::Buffer { buffer: Buffer::Vertices, size: vertices_size },
            Requirement::Buffer { buffer: Buffer::TrianglesInVoxels, size: upper_bound_count as u64 * 4 },
        ];
        assert(requirements@ =~= spec_triangle_requirements(num_of_triangles, upper_bound_count));
        view_requirements(dimensions, Projection::XY, &mut requirements);
        view_requirements(dimensions, Projection::ZX, &mut requirements);
        view_requirements(dimensions, Projection::YZ, &mut requirements);
        if self.sdf_baker_resources.cache.buffer(Buffer::Vertices) != Some(vertices_size) {
            self.sdf_baker_resources.num_of_triangles = num_of_triangles;
        }
        self.sdf_baker_resources.cache.acquire(&requirements)
    }

    /// Looks up the parameter sets of the stage and says what is written
    /// into them.
    pub fn build_geometry_update(&self) -> (r: Result<Vec<Binding>, BakeError>)
        ensures
            match r {
                Ok(bindings) => bindings@ == spec_build_geometry_bindings()
                    && self.sdf_baker_resources.inventory.descriptor_sets_found(
                    spec_build_geometry_descriptor_sets(),
                ) is Ok,
                Err(e) => self.sdf_baker_resources.inventory.descriptor_sets_found(
                    spec_build_geometry_descriptor_sets(),
                ) == Err::<(), BakeError>(e),
            },
    {
        let needed = vec![
            DescriptorSet::GenTriInUvw,
            DescriptorSet::CalTriDir,
            DescriptorSet::ConservativeRasterization,
            DescriptorSet::WriteUvwAndCoverage,
            DescriptorSet::WriteTriangleIdsToVoxels,
        ];
        assert(needed@ =~= spec_build_geometry_descriptor_sets());
        self.sdf_baker_resources.inventory.require_descriptor_sets(&needed)?;
        let bindings = vec![
            external(DescriptorSet::GenTriInUvw, 0, BindingKind::UniformBuffer, Resource::MeshUniform),
            external(DescriptorSet::GenTriInUvw, 1, BindingKind::StorageBuffer, Resource::MeshIndices),
            external(DescriptorSet::GenTriInUvw, 2, BindingKind::StorageBuffer, Resource::MeshVertices),
            storage_buffer(DescriptorSet::GenTriInUvw, 3, Buffer::TriangleUvw),
            external(DescriptorSet::CalTriDir, 0, BindingKind::UniformBuffer, Resource::MeshUniform),
            external(DescriptorSet::CalTriDir, 1, BindingKind::StorageBuffer, Resource::MeshIndices),
            external(DescriptorSet::CalTriDir, 2, BindingKind::StorageBuffer, Resource::MeshVertices),
            storage_buffer(DescriptorSet::CalTriDir, 3, Buffer::CoordFlip),
            external(
                DescriptorSet::ConservativeRasterization,
                0,
                BindingKind::UniformBuffer,
                Resource::MeshUniform,
            ),
            external(
                DescriptorSet::ConservativeRasterization,
                1,
                BindingKind::StorageBuffer,
                Resource::MeshIndices,
            ),
            external(
                DescriptorSet::ConservativeRasterization,
                2,
                BindingKind::StorageBuffer,
                Resource::MeshVertices,
            ),
            external(
                DescriptorSet::ConservativeRasterization,
                3,
                BindingKind::UniformBuffer,
                Resource::RasterizationUniform,
            ),
            storage_buffer(DescriptorSet::ConservativeRasterization, 4, Buffer::CoordFlip),
            storage_buffer(DescriptorSet::ConservativeRasterization, 5, Buffer::Aabb),
            storage_buffer(DescriptorSet::ConservativeRasterization, 6, Buffer::Vertices),
            storage_buffer(DescriptorSet::WriteUvwAndCoverage, 0, Buffer::Vertices),
            storage_buffer(DescriptorSet::WriteUvwAndCoverage, 1, Buffer::CoordFlip),
            storage_buffer(DescriptorSet::WriteUvwAndCoverage, 2, Buffer::Aabb),
            storage_buffer(DescriptorSet::WriteUvwAndCoverage, 3, Buffer::Voxels),
            storage_buffer(DescriptorSet::WriteUvwAndCoverage, 4, Buffer::Counters),
            storage_buffer(DescriptorSet::WriteTriangleIdsToVoxels, 0, Buffer::Vertices),
            storage_buffer(DescriptorSet::WriteTriangleIdsToVoxels, 1, Buffer::CoordFlip),
            storage_buffer(DescriptorSet::WriteTriangleIdsToVoxels, 2, Buffer::Aabb),
            storage_buffer(DescriptorSet::WriteTriangleIdsToVoxels, 4, Buffer::AccumCounters),
            storage_buffer(DescriptorSet::WriteTriangleIdsToVoxels, 5, Buffer::TrianglesInVoxels),
        ];
        assert(bindings@ =~= spec_build_geometry_bindings());
        Ok(bindings)
    }

    /// Looks up the kernels of the compute pass and records it.
    pub fn build_geometry_compute(&self, num_of_triangles: u32) -> (r: Result<CommandList, BakeError>)
        ensures
            match r {
                Ok(commands) => commands@ == spec_build_geometry_commands(num_of_triangles)
                    && self.sdf_baker_resources.inventory.programs_found(
                    spec_build_geometry_programs(),
                ) is Ok,
                Err(e) => self.sdf_baker_resources.inventory.programs_found(
                    spec_build_geometry_programs(),
                ) == Err::<(), BakeError>(e),
            },
    {
        let needed = vec![
            ComputeProgram::GenTriInUvw,
            ComputeProgram::CalTriDir,
            ComputeProgram::ConservativeRasterization,
        ];
        assert(needed@ =~= spec_build_geometry_programs());
        self.sdf_baker_resources.inventory.require_programs(&needed)?;
        let commands = CommandList::from_vec(
            vec![
                Command::BufferBarriers(vec![ordered(Buffer::TriangleUvw), ordered(Buffer::CoordFlip)]),
                Command::BindCompute {
                    program: ComputeProgram::GenTriInUvw,
                    descriptor_set: DescriptorSet::GenTriInUvw,
                },
                triangle_dispatch(num_of_triangles),
                Command::BindCompute {
                    program: ComputeProgram::CalTriDir,
                    descriptor_set: DescriptorSet::CalTriDir,
                },
                triangle_dispatch(num_of_triangles),
                Command::BufferBarriers(
                    vec![ordered(Buffer::Aabb), ordered(Buffer::Vertices), flushed(Buffer::CoordFlip)],
                ),
                Command::BindCompute {
                    program: ComputeProgram::ConservativeRasterization,
                    descriptor_set: DescriptorSet::ConservativeRasterization,
                },
                view_constant(Projection::XY),
                triangle_dispatch(num_of_triangles),
                view_constant(Projection::ZX),
                triangle_dispatch(num_of_triangles),
                view_constant(Projection::YZ),
                triangle_dispatch(num_of_triangles),
            ],
        );
        assert(commands@ =~= spec_build_geometry_commands(num_of_triangles));
        Ok(commands)
    }

    /// Records the counting pass: every triangle is drawn through each view
    /// and adds one to the counter of every voxel it covers.
    pub fn build_geometry_draw_pass_1(&self, num_of_triangles: u32, dimensions: &[u32; 3]) -> (commands:
        CommandList)
        requires
            num_of_triangles <= MAX_TRIANGLES,
        ensures
            commands@ == spec_draw_pass_1_commands(num_of_triangles, dimensions@),
    {
        let mut commands = CommandList::from_vec(
            vec![
                Command::BufferBarriers(vec![flushed(Buffer::Aabb), flushed(Buffer::Vertices)]),
                Command::ImageBarriers(
                    on_render_targets(
                        ImageLayout::Undefined,
                        ImageLayout::ColorAttachment,
                        Hazard::BeginAttachment,
                    ),
                ),
            ],
        );
        let program = GraphicsProgram::WriteUvwAndCoverage;
        commands.append(draw_view(program, coverage_fence(), num_of_triangles, dimensions, Projection::XY));
        commands.append(draw_view(program, coverage_fence(), num_of_triangles, dimensions, Projection::ZX));
        commands.append(draw_view(program, coverage_fence(), num_of_triangles, dimensions, Projection::YZ));
        commands.push(
            Command::ImageBarriers(
                on_render_targets(
                    ImageLayout::ColorAttachment,
                    ImageLayout::ShaderReadOnly,
                    Hazard::AttachmentThenSampled,
                ),
            ),
        );
        assert(commands@ =~= spec_draw_pass_1_commands(num_of_triangles, dimensions@));
        commands
    }

    /// Records the scattering pass: every triangle is drawn through each view
    /// again and claims, in every voxel it covers, the next place of the
    /// voxel's run in the triangle list.
    pub fn build_geometry_draw_pass_2(&self, num_of_triangles: u32, dimensions: &[u32; 3]) -> (commands:
        CommandList)
        requires
            num_of_triangles <= MAX_TRIANGLES,
        ensures
            commands@ == spec_draw_pass_2_commands(num_of_triangles, dimensions@),
    {
        let mut commands = CommandList::from_vec(
            only(
                Command::ImageBarriers(
                    on_render_targets(
                        ImageLayout::ShaderReadOnly,
                        ImageLayout::ColorAttachment,
                        Hazard::SampledThenAttachment,
                    ),
                ),
            ),
        );
        let program = GraphicsProgram::WriteTriangleIdsToVoxels;
        commands.append(draw_view(program, scatter_fence(), num_of_triangles, dimensions, Projection::XY));
        commands.append(draw_view(program, scatter_fence(), num_of_triangles, dimensions, Projection::ZX));
        commands.append(draw_view(program, scatter_fence(), num_of_triangles, dimensions, Projection::YZ));
        commands.push(
            Command::ImageBarriers(
                on_render_targets(
                    ImageLayout::ColorAttachment,
                    ImageLayout::ShaderReadOnly,
                    Hazard::AttachmentThenSampled,
                ),
            ),
        );
        assert(commands@ =~= spec_draw_pass_2_commands(num_of_triangles, dimensions@));
        commands
    }
}

} // verus!
