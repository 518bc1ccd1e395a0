//! The ray map: per voxel the parity of the triangle crossings of rays along
//! the three axes, gathered in eight interleaved passes over 2x2x2 blocks and
//! then summed along X, Y and Z.

use vstd::prelude::*;
use crate::bake::{grid_dispatch, group_count, spec_grid_dispatch, spec_group_count};
use crate::baker::SDFBaker;
use crate::commands::{
    bind, dispatch, flushed, general, only, storage_buffer, storage_image, Binding, Buffer,
    Command, CommandList, CommandView, Hazard, Image, PushValue,
};
use crate::error::BakeError;
use crate::programs::{ComputeProgram, DescriptorSet};
use crate::resources::{Extent, Requirement};

verus! {

/// Passes over the 2x2x2 blocks: one per corner.
pub const LOCAL_PASSES: u32 = 8;

/// The ray map.
pub open spec fn spec_ray_map_requirements(dimensions: Seq<u32>) -> Seq<Requirement> {
    seq![
        Requirement::Image {
            image: Image::RayMap,
            extent: Extent { width: dimensions[0], height: dimensions[1], depth: dimensions[2] },
        },
    ]
}

/// The parameter sets of the stage, in the order they are looked up.
pub open spec fn spec_ray_map_descriptor_sets() -> Seq<DescriptorSet> {
    seq![
        DescriptorSet::GenerateRayMapLocal2x2,
        DescriptorSet::RayMapSumX,
        DescriptorSet::RayMapSumY,
        DescriptorSet::RayMapSumZ,
    ]
}

/// What the stage writes into its parameter sets.
pub open spec fn spec_ray_map_bindings() -> Seq<Binding> {
    seq![
        storage_buffer(DescriptorSet::GenerateRayMapLocal2x2, 0, Buffer::AccumCounters),
        storage_buffer(DescriptorSet::GenerateRayMapLocal2x2, 1, Buffer::TrianglesInVoxels),
        storage_buffer(DescriptorSet::GenerateRayMapLocal2x2, 2, Buffer::TriangleUvw),
        storage_image(DescriptorSet::GenerateRayMapLocal2x2, 3, Image::RayMap),
        storage_image(DescriptorSet::RayMapSumX, 0, Image::RayMap),
        storage_image(DescriptorSet::RayMapSumY, 0, Image::RayMap),
        storage_image(DescriptorSet::RayMapSumZ, 0, Image::RayMap),
    ]
}

/// The kernels of the stage, in the order they are looked up.
pub open spec fn spec_ray_map_programs() -> Seq<ComputeProgram> {
    seq![
        ComputeProgram::GenerateRayMapLocal2x2,
        ComputeProgram::RayMapSumX,
        ComputeProgram::RayMapSumY,
        ComputeProgram::RayMapSumZ,
    ]
}

/// The corner of the 2x2x2 block that local pass `pass` works on: the three
/// binary digits of the pass, the lowest for X.
pub open spec fn spec_local_offset(pass: u32) -> Seq<PushValue> {
    seq![
        PushValue::U32((pass % 2) as u32),
        PushValue::U32(((pass / 2) % 2) as u32),
        PushValue::U32(((pass / 4) % 2) as u32),
    ]
}

/// The fence between two passes that both read and write the ray map.
pub open spec fn spec_ray_map_fence() -> CommandView {
    CommandView::ImageBarriers(seq![general(Image::RayMap, Hazard::WriteThenReadWrite)])
}

/// The commands of local pass `pass`.
pub open spec fn spec_local_pass(dimensions: Seq<u32>, pass: u32) -> Seq<CommandView> {
    seq![
        spec_ray_map_fence(),
        CommandView::PushConstants(spec_local_offset(pass)),
        spec_grid_dispatch(dimensions, 16),
    ]
}

/// The commands of the local passes 0 to `passes - 1`.
pub open spec fn spec_local_passes(dimensions: Seq<u32>, passes: nat) -> Seq<CommandView>
    decreases passes,
{
    if passes == 0 {
        Seq::empty()
    } else {
        spec_local_passes(dimensions, (passes - 1) as nat) + spec_local_pass(
            dimensions,
            (passes - 1) as u32,
        )
    }
}

/// What comes before the local passes.
pub open spec fn spec_ray_map_head() -> Seq<CommandView> {
    seq![
        CommandView::BufferBarriers(
            seq![
                flushed(Buffer::TriangleUvw),
                flushed(Buffer::AccumCounters),
                flushed(Buffer::TrianglesInVoxels),
            ],
        ),
        bind(ComputeProgram::GenerateRayMapLocal2x2, DescriptorSet::GenerateRayMapLocal2x2),
    ]
}

/// The three sums, each over the planes across its axis.
pub open spec fn spec_ray_map_sums(dimensions: Seq<u32>) -> Seq<CommandView> {
    let x = spec_group_count(dimensions[0] as int, 8) as u32;
    let y = spec_group_count(dimensions[1] as int, 8) as u32;
    let z = spec_group_count(dimensions[2] as int, 8) as u32;
    seq![
        spec_ray_map_fence(),
        bind(ComputeProgram::RayMapSumX, DescriptorSet::RayMapSumX),
        dispatch(1, y, z),
        spec_ray_map_fence(),
        bind(ComputeProgram::RayMapSumY, DescriptorSet::RayMapSumY),
        dispatch(x, 1, z),
        spec_ray_map_fence(),
        bind(ComputeProgram::RayMapSumZ, DescriptorSet::RayMapSumZ),
        dispatch(x, y, 1),
    ]
}

/// The commands of the stage.
pub open spec fn spec_ray_map_commands(dimensions: Seq<u32>) -> Seq<CommandView> {
    spec_ray_map_head() + spec_local_passes(dimensions, LOCAL_PASSES as nat) + spec_ray_map_sums(
        dimensions,
    )
}

/// The eight local passes visit the eight corners of the block, each once:
/// every corner is the offset of the pass whose digits it is, and of no
/// other pass.
pub proof fn lemma_local_offsets_cover_block(x: u32, y: u32, z: u32, pass: u32)
    requires
        x <= 1,
        y <= 1,
        z <= 1,
        pass < LOCAL_PASSES,
    ensures
        x + 2 * y + 4 * z < LOCAL_PASSES,
        spec_local_offset(pass) == seq![PushValue::U32(x), PushValue::U32(y), PushValue::U32(z)]
            <==> pass == x + 2 * y + 4 * z,
{
    let corner = seq![PushValue::U32(x), PushValue::U32(y), PushValue::U32(z)];
    if pass == x + 2 * y + 4 * z {
        assert(spec_local_offset(pass) =~= corner);
    }
    if spec_local_offset(pass) == corner {
        assert(spec_local_offset(pass)[0] == corner[0]);
        assert(spec_local_offset(pass)[1] == corner[1]);
        assert(spec_local_offset(pass)[2] == corner[2]);
    }
}

fn ray_map_fence() -> (command: Command)
    ensures
        command@ == spec_ray_map_fence(),
{
    Command::ImageBarriers(only(general(Image::RayMap, Hazard::WriteThenReadWrite)))
}

fn local_pass(dimensions: &[u32; 3], pass: u32) -> (commands: CommandList)
    requires
        pass < LOCAL_PASSES,
    ensures
        commands@ == spec_local_pass(dimensions@, pass),
{
    let commands = CommandList::from_vec(
        vec![
            ray_map_fence(),
            Command::PushConstants(
                vec![
                    PushValue::U32(pass % 2),
                    PushValue::U32((pass / 2) % 2),
                    PushValue::U32((pass / 4) % 2),
                ],
            ),
            grid_dispatch(dimensions, 16),
        ],
    );
    assert(commands@ =~= spec_local_pass(dimensions@, pass));
    commands
}

impl SDFBaker {
    /// Asks for the ray map. Returns it if it has to be allocated.
    pub fn ray_map_create_buffers_images(&mut self, dimensions: &[u32; 3]) -> (allocations: Vec<
        Requirement,
    >)
        ensures
            allocations@ == old(self).sdf_baker_resources.cache.allocations(
                spec_ray_map_requirements(dimensions@),
            ),
            final(self).sdf_baker_resources.cache == old(self).sdf_baker_resources.cache.acquired(
                spec_ray_map_requirements(dimensions@),
            ),
            final(self).sdf_baker_resources.inventory == old(self).sdf_baker_resources.inventory,
            final(self).sdf_baker_resources.num_of_triangles == old(
                self,
            ).sdf_baker_resources.num_of_triangles,
            final(self).udf_baker_resources == old(self).udf_baker_resources,
            final(self).scene == old(self).scene,
            final(self).num_of_meshes == old(self).num_of_meshes,
            final(self).settings == old(self).settings,
            final(self).is_rotating_camera == old(self).is_rotating_camera,
    {
        let requirements = only(
            Requirement::Image {
                image: Image::RayMap,
                extent: Extent { width: dimensions[0], height: dimensions[1], depth: dimensions[2] },
            },
        );
        assert(requirements@ =~= spec_ray_map_requirements(dimensions@));
        self.sdf_baker_resources.cache.acquire(&requirements)
    }

    /// Looks up the parameter sets of the stage and says what is written
    /// into them.
    pub fn ray_map_update(&self) -> (r: Result<Vec<Binding>, BakeError>)
        ensures
            match r {
                Ok(bindings) => bindings@ == spec_ray_map_bindings()
                    && self.sdf_baker_resources.inventory.descriptor_sets_found(
                    spec_ray_map_descriptor_sets(),
                ) is Ok,
                Err(e) => self.sdf_baker_resources.inventory.descriptor_sets_found(
                    spec_ray_map_descriptor_sets(),
                ) == Err::<(), BakeError>(e),
            },
    {
        let needed = vec![
            DescriptorSet::GenerateRayMapLocal2x2,
            DescriptorSet::RayMapSumX,
            DescriptorSet::RayMapSumY,
            DescriptorSet::RayMapSumZ,
        ];
        assert(needed@ =~= spec_ray_map_descriptor_sets());
        self.sdf_baker_resources.inventory.require_descriptor_sets(&needed)?;
        let bindings = vec![
            storage_buffer(DescriptorSet::GenerateRayMapLocal2x2, 0, Buffer::AccumCounters),
            storage_buffer(DescriptorSet::GenerateRayMapLocal2x2, 1, Buffer::TrianglesInVoxels),
            storage_buffer(DescriptorSet::GenerateRayMapLocal2x2, 2, Buffer::TriangleUvw),
            storage_image(DescriptorSet::GenerateRayMapLocal2x2, 3, Image::RayMap),
            storage_image(DescriptorSet::RayMapSumX, 0, Image::RayMap),
            storage_image(DescriptorSet::RayMapSumY, 0, Image::RayMap),
            storage_image(DescriptorSet::RayMapSumZ, 0, Image::RayMap),
        ];
        assert(bindings@ =~= spec_ray_map_bindings());
        Ok(bindings)
    }

    /// Looks up the kernels of the stage and records the local passes and
    /// the three sums.
    pub fn ray_map_compute(&self, dimensions: &[u32; 3]) -> (r: Result<CommandList, BakeError>)
        ensures
            match r {
                Ok(commands) => commands@ == spec_ray_map_commands(dimensions@)
                    && self.sdf_baker_resources.inventory.programs_found(spec_ray_map_programs())
                    is Ok,
                Err(e) => self.sdf_baker_resources.inventory.programs_found(spec_ray_map_programs())
                    == Err::<(), BakeError>(e),
            },
    {
        let needed = vec![
            ComputeProgram::GenerateRayMapLocal2x2,
            ComputeProgram::RayMapSumX,
            ComputeProgram::RayMapSumY,
            ComputeProgram::RayMapSumZ,
        ];
        assert(needed@ =~= spec_ray_map_programs());
        self.sdf_baker_resources.inventory.require_programs(&needed)?;

        let mut commands = CommandList::from_vec(
            vec![
                Command::BufferBarriers(
                    vec![
                        flushed(Buffer::TriangleUvw),
                        flushed(Buffer::AccumCounters),
                        flushed(Buffer::TrianglesInVoxels),
                    ],
                ),
                Command::BindCompute {
                    program: ComputeProgram::GenerateRayMapLocal2x2,
                    descriptor_set: DescriptorSet::GenerateRayMapLocal2x2,
                },
            ],
        );
        assert(commands@ =~= spec_ray_map_head());
        let mut pass: u32 = 0;
        while pass < LOCAL_PASSES
            invariant
                pass <= LOCAL_PASSES,
                commands@ == spec_ray_map_head() + spec_local_passes(dimensions@, pass as nat),
            decreases LOCAL_PASSES - pass,
        {
            let next = local_pass(dimensions, pass);
            proof {
                assert(spec_ray_map_head() + spec_local_passes(dimensions@, (pass + 1) as nat)
                    =~= (spec_ray_map_head() + spec_local_passes(dimensions@, pass as nat))
                    + next@);
            }
            commands.append(next);
            pass = pass + 1;
        }
        let x = group_count(dimensions[0], 8);
        let y = group_count(dimensions[1], 8);
        let z = group_count(dimensions[2], 8);
        let sums = CommandList::from_vec(
            vec![
                ray_map_fence(),
                Command::BindCompute {
                    program: ComputeProgram::RayMapSumX,
                    descriptor_set: DescriptorSet::RayMapSumX,
                },
                Command::Dispatch { x: 1, y, z },
                ray_map_fence(),
                Command::BindCompute {
                    program: ComputeProgram::RayMapSumY,
                    descriptor_set: DescriptorSet::RayMapSumY,
                },
                Command::Dispatch { x, y: 1, z },
                ray_map_fence(),
                Command::BindCompute {
                    program: ComputeProgram::RayMapSumZ,
                    descriptor_set: DescriptorSet::RayMapSumZ,
                },
                Command::Dispatch { x, y, z: 1 },
            ],
        );
        assert(sums@ =~= spec_ray_map_sums(dimensions@));
        commands.append(sums);
        Ok(commands)
    }
}

} // verus!
