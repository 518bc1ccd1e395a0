//! The surface closer: marks the voxels where the sign changes, copies the
//! occupied voxels into a texture, and floods the nearest marked voxel across
//! the grid in jumps that halve from pass to pass.

use vstd::prelude::*;
use vstd::arithmetic::power2::pow2;
use crate::bake::{floor_log2, grid_dispatch, power_of_two, spec_floor_log2, spec_grid_dispatch};
use crate::bake::find_sign::{spec_threshold_scale, threshold_scale};
use crate::baker::SDFBaker;
use crate::commands::{
    bind, flushed, general, only, sampled_image, storage_buffer, storage_image, Binding, Buffer,
    Command, CommandList, CommandView, Hazard, Image, PushValue,
};
use crate::error::BakeError;
use crate::programs::{ComputeProgram, DescriptorSet};
use crate::resources::{Extent, Requirement};

verus! {

/// Number of flooding passes after the first: the logarithm of the
/// resolution.
pub open spec fn spec_jfa_steps(max_resolution: i32) -> nat {
    spec_floor_log2(max_resolution as int)
}

/// The jump of flooding pass `level` of `steps`: a power of two that halves
/// with each pass and is 1 in the last.
pub open spec fn spec_jfa_offset(steps: nat, level: nat) -> nat
    recommends
        1 <= level <= steps,
{
    pow2((steps - level) as nat)
}

/// The texture that flooding pass `level` reads.
pub open spec fn spec_read_voxels_texture(level: int) -> Image {
    if level % 2 == 0 {
        Image::VoxelsTexture
    } else {
        Image::VoxelsTextureBis
    }
}

/// The texture that flooding pass `level` writes. Pass 0 is the first pass.
pub open spec fn spec_write_voxels_texture(level: int) -> Image {
    if level % 2 == 0 {
        Image::VoxelsTextureBis
    } else {
        Image::VoxelsTexture
    }
}

/// The parameter set that flooding pass `level` is bound with.
pub open spec fn spec_jfa_descriptor_set(level: int) -> DescriptorSet {
    if level % 2 == 0 {
        DescriptorSet::Jfa
    } else {
        DescriptorSet::Jfa2
    }
}

/// The two textures the flood runs between.
pub open spec fn spec_surface_closing_requirements(dimensions: Seq<u32>) -> Seq<Requirement> {
    let extent = Extent { width: dimensions[0], height: dimensions[1], depth: dimensions[2] };
    seq![
        Requirement::Image { image: Image::VoxelsTexture, extent },
        Requirement::Image { image: Image::VoxelsTextureBis, extent },
    ]
}

/// The parameter sets of the stage, in the order they are looked up.
pub open spec fn spec_surface_closing_descriptor_sets() -> Seq<DescriptorSet> {
    seq![
        DescriptorSet::InOutEdge,
        DescriptorSet::Buffer2Image,
        DescriptorSet::Jfa,
        DescriptorSet::Jfa2,
    ]
}

/// What the stage writes into its parameter sets, given the sign map that
/// holds the resolved signs.
pub open spec fn spec_surface_closing_bindings(sign_map: Image) -> Seq<Binding> {
    seq![
        sampled_image(DescriptorSet::InOutEdge, 0, sign_map),
        storage_image(DescriptorSet::InOutEdge, 1, Image::VoxelsTexture),
        storage_buffer(DescriptorSet::Buffer2Image, 0, Buffer::Voxels),
        storage_image(DescriptorSet::Buffer2Image, 1, Image::VoxelsTexture),
        sampled_image(DescriptorSet::Jfa, 0, Image::VoxelsTexture),
        storage_image(DescriptorSet::Jfa, 1, Image::VoxelsTextureBis),
        sampled_image(DescriptorSet::Jfa2, 0, Image::VoxelsTextureBis),
        storage_image(DescriptorSet::Jfa2, 1, Image::VoxelsTexture),
    ]
}

/// The kernels of the stage, in the order they are looked up.
pub open spec fn spec_surface_closing_programs() -> Seq<ComputeProgram> {
    seq![ComputeProgram::InOutEdge, ComputeProgram::Buffer2Image, ComputeProgram::Jfa]
}

/// Seeding: the edge voxels from the thresholded sign map, the occupied
/// voxels from the voxel buffer, and the first flooding pass with jump 1.
pub open spec fn spec_seed_commands(dimensions: Seq<u32>, sign_map: Image, sign_passes_count: i32) -> Seq<
    CommandView,
> {
    seq![
        CommandView::ImageBarriers(
            seq![
                general(sign_map, Hazard::WriteThenRead),
                general(Image::VoxelsTexture, Hazard::Execution),
            ],
        ),
        bind(ComputeProgram::InOutEdge, DescriptorSet::InOutEdge),
        CommandView::PushConstants(
            seq![PushValue::InOutThreshold { scale: spec_threshold_scale(sign_passes_count) }],
        ),
        spec_grid_dispatch(dimensions, 4),
        CommandView::BufferBarriers(seq![flushed(Buffer::Voxels)]),
        CommandView::ImageBarriers(seq![general(Image::VoxelsTexture, Hazard::WriteThenRead)]),
        bind(ComputeProgram::Buffer2Image, DescriptorSet::Buffer2Image),
        spec_grid_dispatch(dimensions, 4),
        CommandView::ImageBarriers(
            seq![
                general(Image::VoxelsTexture, Hazard::WriteThenRead),
                general(Image::VoxelsTextureBis, Hazard::Execution),
            ],
        ),
        bind(ComputeProgram::Jfa, DescriptorSet::Jfa),
        CommandView::PushConstants(seq![PushValue::I32(1)]),
        spec_grid_dispatch(dimensions, 4),
    ]
}

/// The commands of flooding pass `level` of `steps`: a fence that makes the
/// texture of the pass before readable and orders the writes to the other,
/// then the pass with its jump.
pub open spec fn spec_jfa_pass(dimensions: Seq<u32>, steps: nat, level: nat) -> Seq<CommandView> {
    seq![
        CommandView::ImageBarriers(
            seq![
                general(spec_read_voxels_texture(level as int), Hazard::WriteThenRead),
                general(spec_write_voxels_texture(level as int), Hazard::Execution),
            ],
        ),
        bind(ComputeProgram::Jfa, spec_jfa_descriptor_set(level as int)),
        CommandView::PushConstants(seq![PushValue::U32(spec_jfa_offset(steps, level) as u32)]),
        spec_grid_dispatch(dimensions, 4),
    ]
}

/// The commands of the flooding passes 1 to `levels` of `steps`.
pub open spec fn spec_jfa_passes(dimensions: Seq<u32>, steps: nat, levels: nat) -> Seq<CommandView>
    decreases levels,
{
    if levels == 0 {
        Seq::empty()
    } else {
        spec_jfa_passes(dimensions, steps, (levels - 1) as nat) + spec_jfa_pass(
            dimensions,
            steps,
            levels,
        )
    }
}

/// The commands of the stage: the seeding, then one flooding pass per step.
pub open spec fn spec_surface_closing_commands(
    dimensions: Seq<u32>,
    sign_map: Image,
    sign_passes_count: i32,
    max_resolution: i32,
) -> Seq<CommandView> {
    let steps = spec_jfa_steps(max_resolution);
    spec_seed_commands(dimensions, sign_map, sign_passes_count) + spec_jfa_passes(
        dimensions,
        steps,
        steps,
    )
}

/// The jumps halve from each pass to the next, start at half the largest
/// power of two within the resolution, and end at 1.
pub proof fn lemma_jfa_offsets_halve(max_resolution: i32, level: nat)
    requires
        max_resolution >= 1,
        1 <= level <= spec_jfa_steps(max_resolution),
    ensures
        level < spec_jfa_steps(max_resolution) ==> spec_jfa_offset(
            spec_jfa_steps(max_resolution),
            level,
        ) == 2 * spec_jfa_offset(spec_jfa_steps(max_resolution), level + 1),
        spec_jfa_offset(spec_jfa_steps(max_resolution), spec_jfa_steps(max_resolution)) == 1,
        2 * spec_jfa_offset(spec_jfa_steps(max_resolution), 1) <= max_resolution,
        1 <= spec_jfa_offset(spec_jfa_steps(max_resolution), level) <= max_resolution,
{
    let steps = spec_jfa_steps(max_resolution);
    crate::bake::lemma_floor_log2_bounds(max_resolution as int);
    vstd::arithmetic::power2::lemma2_to64();
    vstd::arithmetic::power2::lemma_pow2_unfold(steps);
    vstd::arithmetic::power2::lemma_pow2_pos((steps - level) as nat);
    if level < steps {
        vstd::arithmetic::power2::lemma_pow2_unfold((steps - level) as nat);
    }
    if steps - level < steps {
        vstd::arithmetic::power2::lemma_pow2_strictly_increases((steps - level) as nat, steps);
    }
}

/// In every flooding pass the texture that is read is not the one that is
/// written, each pass reads what the pass before it wrote, and the set the
/// pass is bound with reads and fills the same two.
pub proof fn lemma_voxel_textures_alternate(level: int)
    requires
        level >= 1,
    ensures
        spec_read_voxels_texture(level) != spec_write_voxels_texture(level),
        spec_read_voxels_texture(level) == spec_write_voxels_texture(level - 1),
        spec_write_voxels_texture(0) == Image::VoxelsTextureBis,
        forall|sign_map: Image|
            spec_surface_closing_bindings(sign_map).contains(
                sampled_image(spec_jfa_descriptor_set(level), 0, spec_read_voxels_texture(level)),
            ),
        forall|sign_map: Image|
            spec_surface_closing_bindings(sign_map).contains(
                storage_image(spec_jfa_descriptor_set(level), 1, spec_write_voxels_texture(level)),
            ),
{
    assert forall|sign_map: Image|
        spec_surface_closing_bindings(sign_map).contains(
            sampled_image(spec_jfa_descriptor_set(level), 0, spec_read_voxels_texture(level)),
        ) && spec_surface_closing_bindings(sign_map).contains(
            storage_image(spec_jfa_descriptor_set(level), 1, spec_write_voxels_texture(level)),
        ) by {
        let bindings = spec_surface_closing_bindings(sign_map);
        if level % 2 == 0 {
            assert(bindings[4] == sampled_image(DescriptorSet::Jfa, 0, Image::VoxelsTexture));
            assert(bindings[5] == storage_image(DescriptorSet::Jfa, 1, Image::VoxelsTextureBis));
        } else {
            assert(bindings[6] == sampled_image(DescriptorSet::Jfa2, 0, Image::VoxelsTextureBis));
            assert(bindings[7] == storage_image(DescriptorSet::Jfa2, 1, Image::VoxelsTexture));
        }
    }
}

/// The texture that flooding pass `level` reads.
pub fn read_voxels_texture(level: u32) -> (image: Image)
    ensures
        image == spec_read_voxels_texture(level as int),
{
    if level % 2 == 0 {
        Image::VoxelsTexture
    } else {
        Image::VoxelsTextureBis
    }
}

/// The texture that flooding pass `level` writes; for pass 0 the texture
/// the first pass fills.
pub fn write_voxels_texture(level: u32) -> (image: Image)
    ensures
        image == spec_write_voxels_texture(level as int),
{
    if level % 2 == 0 {
        Image::VoxelsTextureBis
    } else {
        Image::VoxelsTexture
    }
}

/// Records flooding pass `level` of `steps`.
fn jfa_pass(dimensions: &[u32; 3], steps: u32, level: u32) -> (commands: CommandList)
    requires
        1 <= level <= steps <= 31,
    ensures
        commands@ == spec_jfa_pass(dimensions@, steps as nat, level as nat),
{
    let set = if level % 2 == 0 {
        DescriptorSet::Jfa
    } else {
        DescriptorSet::Jfa2
    };
    let offset = power_of_two(steps - level);
    let commands = CommandList::from_vec(
        vec![
            Command::ImageBarriers(
                vec![
                    general(read_voxels_texture(level), Hazard::WriteThenRead),
                    general(write_voxels_texture(level), Hazard::Execution),
                ],
            ),
            Command::BindCompute { program: ComputeProgram::Jfa, descriptor_set: set },
            Command::PushConstants(only(PushValue::U32(offset))),
            grid_dispatch(dimensions, 4),
        ],
    );
    assert(commands@ =~= spec_jfa_pass(dimensions@, steps as nat, level as nat));
    commands
}

impl SDFBaker {
    /// Asks for the two textures the flood runs between. Returns those that
    /// have to be allocated.
    pub fn surface_closing_create_buffers_images(&mut self, dimensions: &[u32; 3]) -> (allocations:
        Vec<Requirement>)
        ensures
            allocations@ == old(self).sdf_baker_resources.cache.allocations(
                spec_surface_closing_requirements(dimensions@),
            ),
            final(self).sdf_baker_resources.cache == old(self).sdf_baker_resources.cache.acquired(
                spec_surface_closing_requirements(dimensions@),
            ),
            final(self).sdf_baker_resources.inventory == old(self).sdf_baker_resources.inventory,
            final(self).sdf_baker_resources.num_of_triangles == old(
                self,
            ).sdf_baker_resources.num_of_triangles,
            final(self).udf_baker_resources == old(self).udf_baker_resources,
            final(self).scene == old(self).scene,
            final(self).num_of_meshes == old(self).num_of_meshes,
            final(self).settings == old(self).settings,
            final(self).is_rotating_camera == old(self).is_rotating_camera,
    {
        let extent = Extent { width: dimensions[0], height: dimensions[1], depth: dimensions[2] };
        let requirements = vec![
            Requirement::Image { image: Image::VoxelsTexture, extent },
            Requirement::Image { image: Image::VoxelsTextureBis, extent },
        ];
        assert(requirements@ =~= spec_surface_closing_requirements(dimensions@));
        self.sdf_baker_resources.cache.acquire(&requirements)
    }

    /// Looks up the parameter sets of the stage and says what is written
    /// into them, given the sign map that holds the resolved signs.
    pub fn surface_closing_update(&self, sign_map: Image) -> (r: Result<Vec<Binding>, BakeError>)
        ensures
            match r {
                Ok(bindings) => bindings@ == spec_surface_closing_bindings(sign_map)
                    && self.sdf_baker_resources.inventory.descriptor_sets_found(
                    spec_surface_closing_descriptor_sets(),
                ) is Ok,
                Err(e) => self.sdf_baker_resources.inventory.descriptor_sets_found(
                    spec_surface_closing_descriptor_sets(),
                ) == Err::<(), BakeError>(e),
            },
    {
        let needed = vec![
            DescriptorSet::InOutEdge,
            DescriptorSet::Buffer2Image,
            DescriptorSet::Jfa,
            DescriptorSet::Jfa2,
        ];
        assert(needed@ =~= spec_surface_closing_descriptor_sets());
        self.sdf_baker_resources.inventory.require_descriptor_sets(&needed)?;
        let bindings = vec![
            sampled_image(DescriptorSet::InOutEdge, 0, sign_map),
            storage_image(DescriptorSet::InOutEdge, 1, Image::VoxelsTexture),
            storage_buffer(DescriptorSet::Buffer2Image, 0, Buffer::Voxels),
            storage_image(DescriptorSet::Buffer2Image, 1, Image::VoxelsTexture),
            sampled_image(DescriptorSet::Jfa, 0, Image::VoxelsTexture),
            storage_image(DescriptorSet::Jfa, 1, Image::VoxelsTextureBis),
            sampled_image(DescriptorSet::Jfa2, 0, Image::VoxelsTextureBis),
            storage_image(DescriptorSet::Jfa2, 1, Image::VoxelsTexture),
        ];
        assert(bindings@ =~= spec_surface_closing_bindings(sign_map));
        Ok(bindings)
    }

    /// Looks up the kernels of the stage and records the seeding and the
    /// flood. Returns the commands and the texture that holds the result,
    /// which is the one the last pass wrote.
    pub fn surface_closing_compute(&self, sign_map: Image, dimensions: &[u32; 3]) -> (r: Result<
        (CommandList, Image),
        BakeError,
    >)
        requires
            self.settings.max_resolution >= 1,
        ensures
            match r {
                Ok((commands, voxels_texture)) => commands@ == spec_surface_closing_commands(
                    dimensions@,
                    sign_map,
                    self.settings.sign_passes_count,
                    self.settings.max_resolution,
                ) && voxels_texture == spec_write_voxels_texture(
                    spec_jfa_steps(self.settings.max_resolution) as int,
                ) && self.sdf_baker_resources.inventory.programs_found(
                    spec_surface_closing_programs(),
                ) is Ok,
                Err(e) => self.sdf_baker_resources.inventory.programs_found(
                    spec_surface_closing_programs(),
                ) == Err::<(), BakeError>(e),
            },
    {
        let needed = vec![ComputeProgram::InOutEdge, ComputeProgram::Buffer2Image, ComputeProgram::Jfa];
        assert(needed@ =~= spec_surface_closing_programs());
        self.sdf_baker_resources.inventory.require_programs(&needed)?;

        let scale = threshold_scale(self.settings.sign_passes_count);
        let mut commands = CommandList::from_vec(
            vec![
                Command::ImageBarriers(
                    vec![
                        general(sign_map, Hazard::WriteThenRead),
                        general(Image::VoxelsTexture, Hazard::Execution),
                    ],
                ),
                Command::BindCompute {
                    program: ComputeProgram::InOutEdge,
                    descriptor_set: DescriptorSet::InOutEdge,
                },
                Command::PushConstants(only(PushValue::InOutThreshold { scale })),
                grid_dispatch(dimensions, 4),
                Command::BufferBarriers(only(flushed(Buffer::Voxels))),
                Command::ImageBarriers(only(general(Image::VoxelsTexture, Hazard::WriteThenRead))),
                Command::BindCompute {
                    program: ComputeProgram::Buffer2Image,
                    descriptor_set: DescriptorSet::Buffer2Image,
                },
                grid_dispatch(dimensions, 4),
                Command::ImageBarriers(
                    vec![
                        general(Image::VoxelsTexture, Hazard::WriteThenRead),
                        general(Image::VoxelsTextureBis, Hazard::Execution),
                    ],
                ),
                Command::BindCompute { program: ComputeProgram::Jfa, descriptor_set: DescriptorSet::Jfa },
                Command::PushConstants(only(PushValue::I32(1))),
                grid_dispatch(dimensions, 4),
            ],
        );
        let ghost seed = spec_seed_commands(dimensions@, sign_map, self.settings.sign_passes_count);
        assert(commands@ =~= seed);
        let steps = floor_log2(self.settings.max_resolution);
        let mut level: u32 = 0;
        while level < steps
            invariant
                level <= steps <= 30,
                commands@ == seed + spec_jfa_passes(dimensions@, steps as nat, level as nat),
            decreases steps - level,
        {
            level = level + 1;
            let pass = jfa_pass(dimensions, steps, level);
            proof {
                assert(seed + spec_jfa_passes(dimensions@, steps as nat, level as nat) =~= (seed
                    + spec_jfa_passes(dimensions@, steps as nat, (level - 1) as nat)) + pass@);
            }
            commands.append(pass);
        }
        Ok((commands, write_voxels_texture(steps)))
    }
}

} // verus!
