//! The prefix-sum stage: turns the per-voxel triangle counts into the offsets
//! of the compacted triangle list.
//!
//! The scan runs in blocks of [`PREFIX_SUM_THREAD_GROUP_SIZE`] counters. One
//! pass scans inside each block, one scans the block totals, and a last one
//! adds each block's base to its counters. Where there are more blocks than
//! fit one block, the block totals are themselves scanned in blocks first.

use vstd::prelude::*;
use crate::bake::{group_count, spec_group_count};
use crate::baker::SDFBaker;
use crate::commands::{
    bind, dispatch, flushed, only, ordered, storage_buffer, Binding, Buffer, Command, CommandList,
    CommandView,
    PushValue,
};
use crate::error::BakeError;
use crate::programs::{ComputeProgram, DescriptorSet};
use crate::resources::Requirement;

verus! {

/// Counters that one thread group scans.
pub const PREFIX_SUM_THREAD_GROUP_SIZE: u32 = 512;

/// Counters that one group of block totals stands for.
pub const PREFIX_SUM_SQUARED_GROUP_SIZE: u32 = 262144;

/// Counters that one group of groups of block totals stands for.
pub const PREFIX_SUM_CUBED_GROUP_SIZE: u32 = 134217728;

/// Most thread groups a dispatch may have along one dimension.
pub const MAX_THREAD_GROUPS_PER_DIMENSION: u32 = 0xFFFF;

/// The dispatch, as columns and rows of thread groups, for a scan pass over
/// `num_of_threads` counters: as few rows as keep the columns within the
/// limit per dimension.
pub open spec fn spec_prefix_sum_dispatch_size(num_of_threads: u32) -> (u32, u32) {
    let groups = spec_group_count(num_of_threads as int, PREFIX_SUM_THREAD_GROUP_SIZE as int);
    let rows = 1 + groups / (MAX_THREAD_GROUPS_PER_DIMENSION as int);
    ((groups / rows) as u32, rows as u32)
}

/// Whether the block totals of `num_of_voxels` counters need a scan in
/// blocks of their own.
pub open spec fn spec_needs_second_level(num_of_voxels: u32) -> bool {
    spec_group_count(num_of_voxels as int, PREFIX_SUM_THREAD_GROUP_SIZE as int)
        > PREFIX_SUM_THREAD_GROUP_SIZE
}

/// The buffers of the stage with their sizes in bytes.
pub open spec fn spec_prefix_sum_requirements(num_of_voxels: u32) -> Seq<Requirement> {
    let n = num_of_voxels as int;
    let blocks = spec_group_count(n, PREFIX_SUM_THREAD_GROUP_SIZE as int);
    let block_groups = spec_group_count(n, PREFIX_SUM_SQUARED_GROUP_SIZE as int);
    seq![
        Requirement::Buffer { buffer: Buffer::Voxels, size: (n * 16) as u64 },
        Requirement::Buffer { buffer: Buffer::Counters, size: (n * 4) as u64 },
        Requirement::Buffer { buffer: Buffer::InSumBlocks, size: (blocks * 4) as u64 },
        Requirement::Buffer { buffer: Buffer::SumBlocks, size: (blocks * 4) as u64 },
        Requirement::Buffer { buffer: Buffer::AccumSumBlocks, size: (blocks * 4) as u64 },
        Requirement::Buffer { buffer: Buffer::AccumCounters, size: (n * 4) as u64 },
        Requirement::Buffer { buffer: Buffer::Tmp, size: (n * 4) as u64 },
        Requirement::Buffer { buffer: Buffer::AdditionalSumBlocks, size: (block_groups * 4) as u64 },
    ]
}

/// The parameter sets of the stage, in the order they are looked up.
pub open spec fn spec_prefix_sum_descriptor_sets() -> Seq<DescriptorSet> {
    seq![
        DescriptorSet::InBucketSum,
        DescriptorSet::BlockSum,
        DescriptorSet::FinalSum,
        DescriptorSet::ToBlockSumBuffer,
        DescriptorSet::InBucketSum2,
        DescriptorSet::BlockSum2,
        DescriptorSet::FinalSum2,
    ]
}

/// What the stage writes into its parameter sets.
pub open spec fn spec_prefix_sum_bindings() -> Seq<Binding> {
    seq![
        storage_buffer(DescriptorSet::InBucketSum, 0, Buffer::Counters),
        storage_buffer(DescriptorSet::InBucketSum, 1, Buffer::Tmp),
        storage_buffer(DescriptorSet::BlockSum, 0, Buffer::Tmp),
        storage_buffer(DescriptorSet::BlockSum, 1, Buffer::AccumSumBlocks),
        storage_buffer(DescriptorSet::BlockSum, 2, Buffer::Counters),
        storage_buffer(DescriptorSet::FinalSum, 0, Buffer::Tmp),
        storage_buffer(DescriptorSet::FinalSum, 1, Buffer::AccumCounters),
        storage_buffer(DescriptorSet::FinalSum, 2, Buffer::Counters),
        storage_buffer(DescriptorSet::FinalSum, 3, Buffer::AccumSumBlocks),
        storage_buffer(DescriptorSet::ToBlockSumBuffer, 0, Buffer::Tmp),
        storage_buffer(DescriptorSet::ToBlockSumBuffer, 1, Buffer::SumBlocks),
        storage_buffer(DescriptorSet::ToBlockSumBuffer, 2, Buffer::Counters),
        storage_buffer(DescriptorSet::InBucketSum2, 0, Buffer::SumBlocks),
        storage_buffer(DescriptorSet::InBucketSum2, 1, Buffer::InSumBlocks),
        storage_buffer(DescriptorSet::BlockSum2, 0, Buffer::InSumBlocks),
        storage_buffer(DescriptorSet::BlockSum2, 1, Buffer::AdditionalSumBlocks),
        storage_buffer(DescriptorSet::BlockSum2, 2, Buffer::SumBlocks),
        storage_buffer(DescriptorSet::FinalSum2, 0, Buffer::InSumBlocks),
        storage_buffer(DescriptorSet::FinalSum2, 1, Buffer::AccumSumBlocks),
        storage_buffer(DescriptorSet::FinalSum2, 2, Buffer::SumBlocks),
        storage_buffer(DescriptorSet::FinalSum2, 3, Buffer::AdditionalSumBlocks),
    ]
}

/// The kernels of the stage, in the order they are looked up.
pub open spec fn spec_prefix_sum_programs(num_of_voxels: u32) -> Seq<ComputeProgram> {
    if spec_needs_second_level(num_of_voxels) {
        seq![
            ComputeProgram::InBucketSum,
            ComputeProgram::ToBlockSumBuffer,
            ComputeProgram::BlockSum,
            ComputeProgram::FinalSum,
        ]
    } else {
        seq![ComputeProgram::InBucketSum, ComputeProgram::BlockSum, ComputeProgram::FinalSum]
    }
}

/// The three push constants of a scan pass.
pub open spec fn spec_scan_constants(columns: u32, count: u32) -> CommandView {
    CommandView::PushConstants(seq![PushValue::U32(columns), PushValue::U32(count), PushValue::U32(0)])
}

/// The scan of the block totals: in one pass where they fit one block, else
/// gathered, scanned in blocks, scanned across blocks and put together.
pub open spec fn spec_block_level_commands(num_of_voxels: u32) -> Seq<CommandView> {
    let n = num_of_voxels;
    let columns = spec_prefix_sum_dispatch_size(n).0;
    let blocks = spec_group_count(n as int, PREFIX_SUM_THREAD_GROUP_SIZE as int) as u32;
    let block_groups = spec_group_count(n as int, PREFIX_SUM_SQUARED_GROUP_SIZE as int) as u32;
    let top_groups = spec_group_count(n as int, PREFIX_SUM_CUBED_GROUP_SIZE as int) as u32;
    if spec_needs_second_level(n) {
        seq![
            bind(ComputeProgram::ToBlockSumBuffer, DescriptorSet::ToBlockSumBuffer),
            spec_scan_constants(0, n),
            dispatch(block_groups, 1, 1),
            CommandView::BufferBarriers(seq![flushed(Buffer::SumBlocks)]),
            bind(ComputeProgram::InBucketSum, DescriptorSet::InBucketSum2),
            spec_scan_constants(columns, blocks),
            dispatch(block_groups, 1, 1),
            CommandView::BufferBarriers(seq![flushed(Buffer::InSumBlocks)]),
            bind(ComputeProgram::BlockSum, DescriptorSet::BlockSum2),
            spec_scan_constants(0, blocks),
            dispatch(top_groups, 1, 1),
            CommandView::BufferBarriers(seq![flushed(Buffer::AdditionalSumBlocks)]),
            bind(ComputeProgram::FinalSum, DescriptorSet::FinalSum2),
            spec_scan_constants(columns, blocks),
            dispatch(block_groups, 1, 1),
        ]
    } else {
        seq![
            bind(ComputeProgram::BlockSum, DescriptorSet::BlockSum),
            spec_scan_constants(0, n),
            dispatch(block_groups, 1, 1),
        ]
    }
}

/// The commands of the stage: the scan inside the blocks, the scan of the
/// block totals, and the pass that adds each block's base to its counters,
/// each behind a fence on what it reads and writes.
pub open spec fn spec_prefix_sum_commands(num_of_voxels: u32) -> Seq<CommandView> {
    let n = num_of_voxels;
    let size = spec_prefix_sum_dispatch_size(n);
    seq![
        CommandView::BufferBarriers(
            seq![flushed(Buffer::Voxels), flushed(Buffer::Counters), ordered(Buffer::Tmp)],
        ),
        bind(ComputeProgram::InBucketSum, DescriptorSet::InBucketSum),
        spec_scan_constants(size.0, n),
        dispatch(size.0, size.1, 1),
        CommandView::BufferBarriers(
            seq![
                flushed(Buffer::Tmp),
                ordered(Buffer::AccumSumBlocks),
                ordered(Buffer::SumBlocks),
                ordered(Buffer::InSumBlocks),
                ordered(Buffer::AdditionalSumBlocks),
            ],
        ),
    ] + spec_block_level_commands(n) + seq![
        CommandView::BufferBarriers(
            seq![flushed(Buffer::AccumSumBlocks), ordered(Buffer::AccumCounters)],
        ),
        bind(ComputeProgram::FinalSum, DescriptorSet::FinalSum),
        spec_scan_constants(size.0, n),
        dispatch(size.0, size.1, 1),
    ]
}

/// The dispatch, as columns and rows of thread groups, for a scan pass over
/// `num_of_threads` counters.
pub fn get_prefix_sum_dispatch_size(num_of_threads: u32) -> (size: (u32, u32))
    ensures
        size == spec_prefix_sum_dispatch_size(num_of_threads),
        size.0 <= MAX_THREAD_GROUPS_PER_DIMENSION,
        size.1 >= 1,
{
    let num_of_groups = group_count(num_of_threads, PREFIX_SUM_THREAD_GROUP_SIZE);
    let rows: u32 = 1 + num_of_groups / MAX_THREAD_GROUPS_PER_DIMENSION;
    let columns: u32 = num_of_groups / rows;
    proof {
        let g = num_of_groups as int;
        let r = rows as int;
        let q = g / 0xFFFF;
        vstd::arithmetic::div_mod::lemma_fundamental_div_mod(g, 0xFFFF);
        vstd::arithmetic::div_mod::lemma_mod_bound(g, 0xFFFF);
        vstd::arithmetic::div_mod::lemma_fundamental_div_mod(g, r);
        vstd::arithmetic::div_mod::lemma_mod_bound(g, r);
        assert(g / r <= 0xFFFF) by (nonlinear_arith)
            requires
                g == 0xFFFF * q + g % 0xFFFF,
                0 <= g % 0xFFFF < 0xFFFF,
                r == 1 + q,
                q >= 0,
                g == r * (g / r) + g % r,
                0 <= g % r < r,
        ;
    }
    (columns, rows)
}

fn scan_constants(columns: u32, count: u32) -> (values: Vec<PushValue>)
    ensures
        CommandView::PushConstants(values@) == spec_scan_constants(columns, count),
{
    vec![PushValue::U32(columns), PushValue::U32(count), PushValue::U32(0)]
}

/// Records the scan of the block totals.
fn block_level_commands(num_of_voxels: u32) -> (commands: CommandList)
    ensures
        commands@ == spec_block_level_commands(num_of_voxels),
{
    let size = get_prefix_sum_dispatch_size(num_of_voxels);
    let num_of_blocks = group_count(num_of_voxels, PREFIX_SUM_THREAD_GROUP_SIZE);
    let block_groups = group_count(num_of_voxels, PREFIX_SUM_SQUARED_GROUP_SIZE);
    let commands = if num_of_blocks > PREFIX_SUM_THREAD_GROUP_SIZE {
        let top_groups = group_count(num_of_voxels, PREFIX_SUM_CUBED_GROUP_SIZE);
        CommandList::from_vec(
            vec![
                Command::BindCompute {
                    program: ComputeProgram::ToBlockSumBuffer,
                    descriptor_set: DescriptorSet::ToBlockSumBuffer,
                },
                Command::PushConstants(scan_constants(0, num_of_voxels)),
                Command::Dispatch { x: block_groups, y: 1, z: 1 },
                Command::BufferBarriers(only(flushed(Buffer::SumBlocks))),
                Command::BindCompute {
                    program: ComputeProgram::InBucketSum,
                    descriptor_set: DescriptorSet::InBucketSum2,
                },
                Command::PushConstants(scan_constants(size.0, num_of_blocks)),
                Command::Dispatch { x: block_groups, y: 1, z: 1 },
                Command::BufferBarriers(only(flushed(Buffer::InSumBlocks))),
                Command::BindCompute {
                    program: ComputeProgram::BlockSum,
                    descriptor_set: DescriptorSet::BlockSum2,
                },
                Command::PushConstants(scan_constants(0, num_of_blocks)),
                Command::Dispatch { x: top_groups, y: 1, z: 1 },
                Command::BufferBarriers(only(flushed(Buffer::AdditionalSumBlocks))),
                Command::BindCompute {
                    program: ComputeProgram::FinalSum,
                    descriptor_set: DescriptorSet::FinalSum2,
                },
                Command::PushConstants(scan_constants(size.0, num_of_blocks)),
                Command::Dispatch { x: block_groups, y: 1, z: 1 },
            ],
        )
    } else {
        CommandList::from_vec(
            vec![
                Command::BindCompute {
                    program: ComputeProgram::BlockSum,
                    descriptor_set: DescriptorSet::BlockSum,
                },
                Command::PushConstants(scan_constants(0, num_of_voxels)),
                Command::Dispatch { x: block_groups, y: 1, z: 1 },
            ],
        )
    };
    assert(commands@ =~= spec_block_level_commands(num_of_voxels));
    commands
}

impl SDFBaker {
    /// Asks for the buffers of the stage. Returns those that have to be
    /// allocated, in the order they are asked for.
    pub fn prefix_sum_create_buffers_images(&mut self, num_of_voxels: u32) -> (allocations: Vec<
        Requirement,
    >)
        ensures
            allocations@ == old(self).sdf_baker_resources.cache.allocations(
                spec_prefix_sum_requirements(num_of_voxels),
            ),
            final(self).sdf_baker_resources.cache == old(self).sdf_baker_resources.cache.acquired(
                spec_prefix_sum_requirements(num_of_voxels),
            ),
            final(self).sdf_baker_resources.inventory == old(self).sdf_baker_resources.inventory,
            final(self).sdf_baker_resources.num_of_triangles == old(
                self,
            ).sdf_baker_resources.num_of_triangles,
            final(self).udf_baker_resources == old(self).udf_baker_resources,
            final(self).scene == old(self).scene,
            final(self).num_of_meshes == old(self).num_of_meshes,
            final(self).settings == old(self).settings,
            final(self).is_rotating_camera == old(self).is_rotating_camera,
    {
        let n = num_of_voxels as u64;
        let blocks = group_count(num_of_voxels, PREFIX_SUM_THREAD_GROUP_SIZE) as u64;
        let block_groups = group_count(num_of_voxels, PREFIX_SUM_SQUARED_GROUP_SIZE) as u64;
        let requirements = vec![
            Requirement::Buffer { buffer: Buffer::Voxels, size: n * 16 },
            Requirement::Buffer { buffer: Buffer::Counters, size: n * 4 },
            Requirement::Buffer { buffer: Buffer::InSumBlocks, size: blocks * 4 },
            Requirement::Buffer { buffer: Buffer::SumBlocks, size: blocks * 4 },
            Requirement::Buffer { buffer: Buffer::AccumSumBlocks, size: blocks * 4 },
            Requirement::Buffer { buffer: Buffer::AccumCounters, size: n * 4 },
            Requirement::Buffer { buffer: Buffer::Tmp, size: n * 4 },
            Requirement::Buffer { buffer: Buffer::AdditionalSumBlocks, size: block_groups * 4 },
        ];
        assert(requirements@ =~= spec_prefix_sum_requirements(num_of_voxels));
        self.sdf_baker_resources.cache.acquire(&requirements)
    }

    /// Looks up the parameter sets of the stage and says what is written
    /// into them: for each pass the buffers it reads and the one it fills.
    pub fn prefix_sum_update(&self) -> (r: Result<Vec<Binding>, BakeError>)
        ensures
            match r {
                Ok(bindings) => bindings@ == spec_prefix_sum_bindings()
                    && self.sdf_baker_resources.inventory.descriptor_sets_found(
                    spec_prefix_sum_descriptor_sets(),
                ) is Ok,
                Err(e) => self.sdf_baker_resources.inventory.descriptor_sets_found(
                    spec_prefix_sum_descriptor_sets(),
                ) == Err::<(), BakeError>(e),
            },
    {
        let needed = vec![
            DescriptorSet::InBucketSum,
            DescriptorSet::BlockSum,
            DescriptorSet::FinalSum,
            DescriptorSet::ToBlockSumBuffer,
            DescriptorSet::InBucketSum2,
            DescriptorSet::BlockSum2,
            DescriptorSet::FinalSum2,
        ];
        assert(needed@ =~= spec_prefix_sum_descriptor_sets());
        self.sdf_baker_resources.inventory.require_descriptor_sets(&needed)?;
        let bindings = vec![
            storage_buffer(DescriptorSet::InBucketSum, 0, Buffer::Counters),
            storage_buffer(DescriptorSet::InBucketSum, 1, Buffer::Tmp),
            storage_buffer(DescriptorSet::BlockSum, 0, Buffer::Tmp),
            storage_buffer(DescriptorSet::BlockSum, 1, Buffer::AccumSumBlocks),
            storage_buffer(DescriptorSet::BlockSum, 2, Buffer::Counters),
            storage_buffer(DescriptorSet::FinalSum, 0, Buffer::Tmp),
            storage_buffer(DescriptorSet::FinalSum, 1, Buffer::AccumCounters),
            storage_buffer(DescriptorSet::FinalSum, 2, Buffer::Counters),
            storage_buffer(DescriptorSet::FinalSum, 3, Buffer::AccumSumBlocks),
            storage_buffer(DescriptorSet::ToBlockSumBuffer, 0, Buffer::Tmp),
            storage_buffer(DescriptorSet::ToBlockSumBuffer, 1, Buffer::SumBlocks),
            storage_buffer(DescriptorSet::ToBlockSumBuffer, 2, Buffer::Counters),
            storage_buffer(DescriptorSet::InBucketSum2, 0, Buffer::SumBlocks),
            storage_buffer(DescriptorSet::InBucketSum2, 1, Buffer::InSumBlocks),
            storage_buffer(DescriptorSet::BlockSum2, 0, Buffer::InSumBlocks),
            storage_buffer(DescriptorSet::BlockSum2, 1, Buffer::AdditionalSumBlocks),
            storage_buffer(DescriptorSet::BlockSum2, 2, Buffer::SumBlocks),
            storage_buffer(DescriptorSet::FinalSum2, 0, Buffer::InSumBlocks),
            storage_buffer(DescriptorSet::FinalSum2, 1, Buffer::AccumSumBlocks),
            storage_buffer(DescriptorSet::FinalSum2, 2, Buffer::SumBlocks),
            storage_buffer(DescriptorSet::FinalSum2, 3, Buffer::AdditionalSumBlocks),
        ];
        assert(bindings@ =~= spec_prefix_sum_bindings());
        Ok(bindings)
    }

    /// Looks up the kernels of the stage and records the scan over
    /// `num_of_voxels` counters.
    pub fn prefix_sum_compute(&self, num_of_voxels: u32) -> (r: Result<CommandList, BakeError>)
        ensures
            match r {
                Ok(commands) => commands@ == spec_prefix_sum_commands(num_of_voxels)
                    && self.sdf_baker_resources.inventory.programs_found(
                    spec_prefix_sum_programs(num_of_voxels),
                ) is Ok,
                Err(e) => self.sdf_baker_resources.inventory.programs_found(
                    spec_prefix_sum_programs(num_of_voxels),
                ) == Err::<(), BakeError>(e),
            },
    {
        let size = get_prefix_sum_dispatch_size(num_of_voxels);
        let num_of_blocks = group_count(num_of_voxels, PREFIX_SUM_THREAD_GROUP_SIZE);
        let block_groups = group_count(num_of_voxels, PREFIX_SUM_SQUARED_GROUP_SIZE);
        let second_level = num_of_blocks > PREFIX_SUM_THREAD_GROUP_SIZE;
        let needed = if second_level {
            vec![
                ComputeProgram::InBucketSum,
                ComputeProgram::ToBlockSumBuffer,
                ComputeProgram::BlockSum,
                ComputeProgram::FinalSum,
            ]
        } else {
            vec![ComputeProgram::InBucketSum, ComputeProgram::BlockSum, ComputeProgram::FinalSum]
        };
        assert(needed@ =~= spec_prefix_sum_programs(num_of_voxels));
        self.sdf_baker_resources.inventory.require_programs(&needed)?;

        let mut commands = CommandList::new();
        commands.buffer_barriers(
            vec![flushed(Buffer::Voxels), flushed(Buffer::Counters), ordered(Buffer::Tmp)],
        );
        commands.bind(ComputeProgram::InBucketSum, DescriptorSet::InBucketSum);
        commands.push_constants(scan_constants(size.0, num_of_voxels));
        commands.dispatch(size.0, size.1, 1);
        commands.buffer_barriers(
            vec![
                flushed(Buffer::Tmp),
                ordered(Buffer::AccumSumBlocks),
                ordered(Buffer::SumBlocks),
                ordered(Buffer::InSumBlocks),
                ordered(Buffer::AdditionalSumBlocks),
            ],
        );
        commands.append(block_level_commands(num_of_voxels));
        commands.buffer_barriers(vec![flushed(Buffer::AccumSumBlocks), ordered(Buffer::AccumCounters)]);
        commands.bind(ComputeProgram::FinalSum, DescriptorSet::FinalSum);
        commands.push_constants(scan_constants(size.0, num_of_voxels));
        commands.dispatch(size.0, size.1, 1);
        assert(commands@ =~= spec_prefix_sum_commands(num_of_voxels));
        Ok(commands)
    }
}

} // verus!
