//! The bake: its stages, each with the resources it needs, the bindings it
//! writes and the commands it records, and the two pipelines made of them.
//!
//! The signed field comes from counting and listing the triangles per voxel,
//! resolving signs, closing the surface by flooding, and a distance
//! transform. The unsigned field comes from splatting the distance to every
//! triangle into the voxels around it; flooding nearest points over an index
//! buffer would give the same field and is not planned here.

use vstd::prelude::*;
use vstd::arithmetic::power2::pow2;
use crate::baker::{SDFBaker, SelectedPrimitive};
use crate::commands::{dispatch, Binding, Command, CommandList, CommandView, Image};
use crate::error::BakeError;
use crate::grid::spec_grid_size;
use crate::inventory::{
    lemma_first_missing_descriptor_set_concat, lemma_first_missing_program_concat,
};
use crate::programs::{ComputeProgram, DescriptorSet};
use crate::resources::{lemma_acquire_concat, Requirement};

pub mod build_geometry;
pub mod distance_transform_winding;
pub mod find_sign;
pub mod initialize;
pub mod splat_triangle_distance;
pub mod surface_closing;
pub mod udf_initialize;
pub mod prefix_sum;
pub mod ray_map;

verus! {

/// Thread groups of `group_size` threads that cover `count` items.
pub open spec fn spec_group_count(count: int, group_size: int) -> int {
    (count + group_size - 1) / group_size
}

/// Thread groups of `group_size` threads that cover `count` items.
pub fn group_count(count: u32, group_size: u32) -> (groups: u32)
    requires
        group_size >= 1,
    ensures
        groups == spec_group_count(count as int, group_size as int),
        groups <= count,
        count >= 1 ==> groups >= 1,
{
    let wide: u64 = (count as u64 + (group_size as u64 - 1)) / (group_size as u64);
    proof {
        let n = count as int;
        let g = group_size as int;
        let q = (n + g - 1) / g;
        vstd::arithmetic::div_mod::lemma_fundamental_div_mod(n + g - 1, g);
        vstd::arithmetic::div_mod::lemma_mod_bound(n + g - 1, g);
        assert(q <= n) by (nonlinear_arith)
            requires
                n + g - 1 == g * q + (n + g - 1) % g,
                0 <= (n + g - 1) % g < g,
                g >= 1,
                n >= 0,
        ;
        assert(n >= 1 ==> q >= 1) by (nonlinear_arith)
            requires
                n + g - 1 == g * q + (n + g - 1) % g,
                0 <= (n + g - 1) % g < g,
                g >= 1,
        ;
    }
    wide as u32
}

/// The dispatch that covers the grid with groups of `group_size` voxels
/// along each axis.
pub open spec fn spec_grid_dispatch(dimensions: Seq<u32>, group_size: u32) -> CommandView {
    dispatch(
        spec_group_count(dimensions[0] as int, group_size as int) as u32,
        spec_group_count(dimensions[1] as int, group_size as int) as u32,
        spec_group_count(dimensions[2] as int, group_size as int) as u32,
    )
}

/// Records the dispatch that covers the grid with groups of `group_size`
/// voxels along each axis.
pub fn grid_dispatch(dimensions: &[u32; 3], group_size: u32) -> (command: Command)
    requires
        group_size >= 1,
    ensures
        command@ == spec_grid_dispatch(dimensions@, group_size),
{
    Command::Dispatch {
        x: group_count(dimensions[0], group_size),
        y: group_count(dimensions[1], group_size),
        z: group_count(dimensions[2], group_size),
    }
}

/// The base 2 logarithm of a positive number, rounded down; 0 for what is
/// not positive.
pub open spec fn spec_floor_log2(n: int) -> nat
    decreases n,
{
    if n <= 1 {
        0
    } else {
        1 + spec_floor_log2(n / 2)
    }
}

/// The logarithm brackets its argument between two powers of two.
pub proof fn lemma_floor_log2_bounds(n: int)
    requires
        n >= 1,
    ensures
        pow2(spec_floor_log2(n)) <= n < pow2(spec_floor_log2(n) + 1),
    decreases n,
{
    reveal(pow2);
    if n <= 1 {
        vstd::arithmetic::power2::lemma2_to64();
    } else {
        lemma_floor_log2_bounds(n / 2);
        let k = spec_floor_log2(n / 2);
        vstd::arithmetic::power2::lemma_pow2_unfold(k + 1);
        vstd::arithmetic::power2::lemma_pow2_unfold(k + 2);
        assert(spec_floor_log2(n) == k + 1);
    }
}

/// The base 2 logarithm of a positive number, rounded down.
pub fn floor_log2(n: i32) -> (log: u32)
    requires
        n >= 1,
    ensures
        log == spec_floor_log2(n as int),
        log <= 30,
        pow2(log as nat) <= n < pow2(log as nat + 1),
{
    let mut rest: i32 = n;
    let mut log: u32 = 0;
    proof {
        lemma_floor_log2_bounds(n as int);
        vstd::arithmetic::power2::lemma2_to64();
        let full = spec_floor_log2(n as int);
        if full > 31 {
            vstd::arithmetic::power2::lemma_pow2_strictly_increases(31, full);
        }
        assert(pow2(31) == 0x8000_0000) by {
            vstd::arithmetic::power2::lemma_pow2_unfold(31);
        }
    }
    while rest > 1
        invariant
            rest >= 1,
            spec_floor_log2(n as int) == log + spec_floor_log2(rest as int),
            spec_floor_log2(n as int) <= 30,
        decreases rest,
    {
        rest = rest / 2;
        log = log + 1;
    }
    proof {
        lemma_floor_log2_bounds(n as int);
    }
    log
}

/// Two to the given power.
pub fn power_of_two(exponent: u32) -> (power: u32)
    requires
        exponent <= 31,
    ensures
        power == pow2(exponent as nat),
        power >= 1,
{
    let mut power: u32 = 1;
    let mut done: u32 = 0;
    proof {
        vstd::arithmetic::power2::lemma2_to64();
    }
    while done < exponent
        invariant
            done <= exponent <= 31,
            power == pow2(done as nat),
            power >= 1,
        decreases exponent - done,
    {
        proof {
            vstd::arithmetic::power2::lemma_pow2_unfold((done + 1) as nat);
            vstd::arithmetic::power2::lemma2_to64();
            if done + 1 < 31 {
                vstd::arithmetic::power2::lemma_pow2_strictly_increases((done + 1) as nat, 31);
            }
        }
        power = power * 2;
        done = done + 1;
    }
    power
}

/// Least number of triangle references the compacted list has room for.
pub const MIN_UPPER_BOUND_COUNT: u32 = 1024;

/// Most triangle references the compacted list has room for.
pub const MAX_UPPER_BOUND_COUNT: u32 = 402653184;

/// Number of voxels of a grid.
pub open spec fn spec_voxel_count(dimensions: Seq<u32>) -> int {
    dimensions[0] as int * dimensions[1] as int * dimensions[2] as int
}

/// The room of the compacted triangle list for an estimate of the
/// triangle-voxel incidences: the estimate, within the two limits.
pub open spec fn spec_upper_bound_count(estimate: u64) -> u32 {
    if estimate > MAX_UPPER_BOUND_COUNT {
        MAX_UPPER_BOUND_COUNT
    } else if estimate < MIN_UPPER_BOUND_COUNT {
        MIN_UPPER_BOUND_COUNT
    } else {
        estimate as u32
    }
}

/// Number of voxels of a grid, where it fits 32 bits.
pub fn voxel_count(dimensions: &[u32; 3]) -> (count: Option<u32>)
    ensures
        count is Some <==> spec_voxel_count(dimensions@) <= u32::MAX,
        count is Some ==> count->0 == spec_voxel_count(dimensions@),
{
    proof {
        assert(dimensions[0] as int * dimensions[1] as int <= 0xffff_ffff * 0xffff_ffff)
            by (nonlinear_arith)
            requires
                0 <= dimensions[0] as int <= 0xffff_ffff,
                0 <= dimensions[1] as int <= 0xffff_ffff,
        ;
    }
    let plane: u64 = dimensions[0] as u64 * dimensions[1] as u64;
    proof {
        assert(plane as int * dimensions[2] as int <= 0xffff_ffff * 0xffff_ffff * 0xffff_ffff)
            by (nonlinear_arith)
            requires
                0 <= plane as int <= 0xffff_ffff * 0xffff_ffff,
                0 <= dimensions[2] as int <= 0xffff_ffff,
        ;
    }
    let volume: u128 = plane as u128 * dimensions[2] as u128;
    if volume > u32::MAX as u128 {
        None
    } else {
        Some(volume as u32)
    }
}

/// The room of the compacted triangle list for an estimate of the
/// triangle-voxel incidences.
pub fn upper_bound_count(estimate: u64) -> (count: u32)
    ensures
        count == spec_upper_bound_count(estimate),
        MIN_UPPER_BOUND_COUNT <= count <= MAX_UPPER_BOUND_COUNT,
{
    if estimate > MAX_UPPER_BOUND_COUNT as u64 {
        MAX_UPPER_BOUND_COUNT
    } else if estimate < MIN_UPPER_BOUND_COUNT as u64 {
        MIN_UPPER_BOUND_COUNT
    } else {
        estimate as u32
    }
}

/// The triangle references the compacted list holds for a grid of
/// `num_of_voxels` voxels: the offset of the last voxel's run plus the count
/// of that run.
pub open spec fn spec_used_count(accum_counters: Seq<u32>, counters: Seq<u32>, num_of_voxels: int) -> int {
    accum_counters[num_of_voxels - 1] + counters[num_of_voxels - 1]
}

/// What the check of the compacted triangle list found after a bake.
#[derive(Clone, Copy, Debug, PartialEq, Eq, Structural)]
pub struct CapacityReport {
    /// The triangle references the list holds: where the run of the last
    /// voxel starts, plus the count of that run.
    pub last_counter: u64,
    /// The room the list was given.
    pub upper_bound_count: u32,
    /// Whether the list was too small, so that runs were cut or overwritten.
    pub overflow: bool,
}

/// Checks the offsets and the counts read back after a bake against the
/// room of the compacted triangle list. The list was too small exactly when
/// it holds more triangle references than it has room for.
pub fn validate_triangle_capacity(
    accum_counters: &Vec<u32>,
    counters: &Vec<u32>,
    num_of_voxels: u32,
    upper_bound_count: u32,
) -> (report: CapacityReport)
    requires
        1 <= num_of_voxels <= accum_counters@.len(),
        num_of_voxels <= counters@.len(),
    ensures
        report.last_counter == spec_used_count(accum_counters@, counters@, num_of_voxels as int),
        report.upper_bound_count == upper_bound_count,
        report.overflow == (spec_used_count(accum_counters@, counters@, num_of_voxels as int)
            > upper_bound_count),
{
    let last = num_of_voxels as usize - 1;
    let last_counter: u64 = accum_counters[last] as u64 + counters[last] as u64;
    CapacityReport {
        last_counter,
        upper_bound_count,
        overflow: last_counter > upper_bound_count as u64,
    }
}

/// Checks the offsets and the counts read back after a bake, where there
/// are enough of both for the grid.
pub fn check_triangle_capacity(
    accum_counters: &Vec<u32>,
    counters: &Vec<u32>,
    num_of_voxels: u32,
    upper_bound_count: u32,
) -> (report: Option<CapacityReport>)
    ensures
        report is Some <==> 1 <= num_of_voxels <= accum_counters@.len() && num_of_voxels
            <= counters@.len(),
        report is Some ==> report->0 == (CapacityReport {
            last_counter: spec_used_count(accum_counters@, counters@, num_of_voxels as int) as u64,
            upper_bound_count,
            overflow: spec_used_count(accum_counters@, counters@, num_of_voxels as int)
                > upper_bound_count,
        }),
{
    if num_of_voxels >= 1 && num_of_voxels as usize <= accum_counters.len() && num_of_voxels as usize
        <= counters.len() {
        Some(validate_triangle_capacity(accum_counters, counters, num_of_voxels, upper_bound_count))
    } else {
        None
    }
}

/// Everything the signed pipeline needs, in the order it is asked for.
pub open spec fn spec_sdf_requirements(
    num_of_triangles: u32,
    dimensions: Seq<u32>,
    num_of_voxels: u32,
    upper_bound_count: u32,
) -> Seq<Requirement> {
    build_geometry::spec_build_geometry_requirements(num_of_triangles, dimensions, upper_bound_count)
        + prefix_sum::spec_prefix_sum_requirements(num_of_voxels)
        + ray_map::spec_ray_map_requirements(dimensions) + find_sign::spec_find_sign_requirements(
        dimensions,
    ) + surface_closing::spec_surface_closing_requirements(dimensions)
        + distance_transform_winding::spec_dtw_requirements(dimensions)
}

/// The parameter sets of the signed pipeline, in the order they are looked
/// up.
pub open spec fn spec_sdf_descriptor_sets() -> Seq<DescriptorSet> {
    initialize::spec_initialize_descriptor_sets()
        + build_geometry::spec_build_geometry_descriptor_sets()
        + prefix_sum::spec_prefix_sum_descriptor_sets() + ray_map::spec_ray_map_descriptor_sets()
        + find_sign::spec_find_sign_descriptor_sets()
        + surface_closing::spec_surface_closing_descriptor_sets()
        + distance_transform_winding::spec_dtw_descriptor_sets()
}

/// The kernels of the signed pipeline, in the order they are looked up.
pub open spec fn spec_sdf_programs(num_of_voxels: u32) -> Seq<ComputeProgram> {
    initialize::spec_initialize_programs() + build_geometry::spec_build_geometry_programs()
        + prefix_sum::spec_prefix_sum_programs(num_of_voxels) + ray_map::spec_ray_map_programs()
        + find_sign::spec_find_sign_programs() + surface_closing::spec_surface_closing_programs()
        + distance_transform_winding::spec_dtw_programs()
}

/// What the signed pipeline writes into its parameter sets. The stages after
/// the sign resolver are given the sign map its last pass wrote, and the
/// distance stage the texture the last flooding pass wrote.
pub open spec fn spec_sdf_bindings(sign_passes_count: i32, max_resolution: i32) -> Seq<Binding> {
    let sign_map = find_sign::spec_write_sign_map(sign_passes_count as int);
    let voxels_texture = surface_closing::spec_write_voxels_texture(
        surface_closing::spec_jfa_steps(max_resolution) as int,
    );
    initialize::spec_initialize_bindings() + build_geometry::spec_build_geometry_bindings()
        + prefix_sum::spec_prefix_sum_bindings() + ray_map::spec_ray_map_bindings()
        + find_sign::spec_find_sign_bindings() + surface_closing::spec_surface_closing_bindings(
        sign_map,
    ) + distance_transform_winding::spec_dtw_bindings(sign_map, voxels_texture)
}

/// The commands of the signed pipeline: count, scan, scatter, then signs,
/// closing and distances, every stage behind its fences.
pub open spec fn spec_sdf_commands(
    num_of_triangles: u32,
    dimensions: Seq<u32>,
    num_of_voxels: u32,
    sign_passes_count: i32,
    max_resolution: i32,
) -> Seq<CommandView> {
    let sign_map = find_sign::spec_write_sign_map(sign_passes_count as int);
    let voxels_texture = surface_closing::spec_write_voxels_texture(
        surface_closing::spec_jfa_steps(max_resolution) as int,
    );
    initialize::spec_initialize_commands(dimensions) + build_geometry::spec_build_geometry_commands(
        num_of_triangles,
    ) + build_geometry::spec_draw_pass_1_commands(num_of_triangles, dimensions)
        + prefix_sum::spec_prefix_sum_commands(num_of_voxels)
        + build_geometry::spec_draw_pass_2_commands(num_of_triangles, dimensions)
        + ray_map::spec_ray_map_commands(dimensions) + find_sign::spec_find_sign_commands(
        dimensions,
        sign_passes_count,
    ) + surface_closing::spec_surface_closing_commands(
        dimensions,
        sign_map,
        sign_passes_count,
        max_resolution,
    ) + distance_transform_winding::spec_dtw_commands(dimensions, voxels_texture, sign_passes_count)
}

/// The parameter sets of the unsigned pipeline, in the order they are looked
/// up.
pub open spec fn spec_udf_descriptor_sets() -> Seq<DescriptorSet> {
    udf_initialize::spec_udf_initialize_descriptor_sets()
        + splat_triangle_distance::spec_splat_descriptor_sets()
}

/// The kernels of the unsigned pipeline, in the order they are looked up.
pub open spec fn spec_udf_programs() -> Seq<ComputeProgram> {
    udf_initialize::spec_udf_initialize_programs() + splat_triangle_distance::spec_splat_programs()
        + udf_initialize::spec_udf_finalize_programs()
}

/// What the unsigned pipeline writes into its parameter sets.
pub open spec fn spec_udf_bindings() -> Seq<Binding> {
    udf_initialize::spec_udf_initialize_bindings() + splat_triangle_distance::spec_splat_bindings()
}

/// The commands of the unsigned pipeline: fill, splat with one thread per
/// triangle, finish.
pub open spec fn spec_udf_commands(num_of_triangles: u32, dimensions: Seq<u32>) -> Seq<CommandView> {
    udf_initialize::spec_udf_initialize_commands(dimensions)
        + splat_triangle_distance::spec_splat_commands(
        spec_group_count(num_of_triangles as int, build_geometry::TRIANGLES_PER_GROUP as int) as u32,
        1,
    ) + udf_initialize::spec_udf_finalize_commands(dimensions)
}

/// A bake of the signed field, planned: what to allocate, what to write into
/// the parameter sets and what to record, in that order, and the numbers
/// the kernels are given.
#[derive(Clone, Debug, PartialEq, Eq)]
pub struct SdfBake {
    pub primitive: SelectedPrimitive,
    pub num_of_triangles: u32,
    pub dimensions: [u32; 3],
    pub num_of_voxels: u32,
    pub upper_bound_count: u32,
    pub num_of_jfa_passes: u32,
    /// The sign map that holds the resolved signs.
    pub sign_map: Image,
    /// The texture that holds the nearest surface voxels.
    pub voxels_texture: Image,
    pub allocations: Vec<Requirement>,
    pub bindings: Vec<Binding>,
    pub commands: CommandList,
}

/// A bake of the unsigned field, planned.
#[derive(Clone, Debug, PartialEq, Eq)]
pub struct UdfBake {
    pub primitive: SelectedPrimitive,
    pub num_of_triangles: u32,
    pub dimensions: [u32; 3],
    pub num_of_voxels: u32,
    pub allocations: Vec<Requirement>,
    pub bindings: Vec<Binding>,
    pub commands: CommandList,
}

impl SDFBaker {
    /// Whether the grid of the settings has few enough voxels to be counted
    /// in 32 bits.
    pub open spec fn grid_fits(&self) -> bool {
        spec_voxel_count(spec_grid_size(self.settings.desired_size@, self.settings.max_resolution))
            <= u32::MAX
    }

    /// What stops a bake of the signed field, if anything: no scene or no
    /// such mesh, else the first parameter set that does not exist, else the
    /// first kernel that is not loaded.
    pub open spec fn spec_sdf_lookup(&self, num_of_voxels: u32) -> Result<(), BakeError> {
        match self.spec_selected() {
            Err(e) => Err(e),
            Ok(_) => match self.sdf_baker_resources.inventory.descriptor_sets_found(
                spec_sdf_descriptor_sets(),
            ) {
                Err(e) => Err(e),
                Ok(_) => self.sdf_baker_resources.inventory.programs_found(
                    spec_sdf_programs(num_of_voxels),
                ),
            },
        }
    }

    /// What stops a bake of the unsigned field, if anything.
    pub open spec fn spec_udf_lookup(&self) -> Result<(), BakeError> {
        match self.spec_selected() {
            Err(e) => Err(e),
            Ok(_) => match self.udf_baker_resources.inventory.descriptor_sets_found(
                spec_udf_descriptor_sets(),
            ) {
                Err(e) => Err(e),
                Ok(_) => self.udf_baker_resources.inventory.programs_found(spec_udf_programs()),
            },
        }
    }

    /// Asks for everything the signed pipeline needs, stage by stage.
    /// Returns what has to be allocated, in the order it is asked for.
    pub fn create_sdf_buffers_images(
        &mut self,
        num_of_triangles: u32,
        dimensions: &[u32; 3],
        num_of_voxels: u32,
        upper_bound_count: u32,
    ) -> (allocations: Vec<Requirement>)
        ensures
            allocations@ == old(self).sdf_baker_resources.cache.allocations(
                spec_sdf_requirements(num_of_triangles, dimensions@, num_of_voxels, upper_bound_count),
            ),
            final(self).sdf_baker_resources.cache == old(self).sdf_baker_resources.cache.acquired(
                spec_sdf_requirements(num_of_triangles, dimensions@, num_of_voxels, upper_bound_count),
            ),
            final(self).sdf_baker_resources.num_of_triangles == (if old(
                self,
            ).sdf_baker_resources.cache.spec_buffer(crate::commands::Buffer::Vertices) == Some(
                (num_of_triangles * 48) as u64,
            ) {
                old(self).sdf_baker_resources.num_of_triangles
            } else {
                num_of_triangles
            }),
            final(self).sdf_baker_resources.inventory == old(self).sdf_baker_resources.inventory,
            final(self).udf_baker_resources == old(self).udf_baker_resources,
            final(self).scene == old(self).scene,
            final(self).num_of_meshes == old(self).num_of_meshes,
            final(self).settings == old(self).settings,
            final(self).is_rotating_camera == old(self).is_rotating_camera,
    {
        let ghost start = self.sdf_baker_resources.cache;
        let ghost needs_geometry = build_geometry::spec_build_geometry_requirements(
            num_of_triangles,
            dimensions@,
            upper_bound_count,
        );
        let ghost needs_scan = prefix_sum::spec_prefix_sum_requirements(num_of_voxels);
        let ghost needs_rays = ray_map::spec_ray_map_requirements(dimensions@);
        let ghost needs_signs = find_sign::spec_find_sign_requirements(dimensions@);
        let ghost needs_closing = surface_closing::spec_surface_closing_requirements(dimensions@);
        let ghost needs_distance = distance_transform_winding::spec_dtw_requirements(dimensions@);
        let mut allocations = self.build_geometry_create_buffers_images(
            num_of_triangles,
            dimensions,
            upper_bound_count,
        );
        let mut next = self.prefix_sum_create_buffers_images(num_of_voxels);
        allocations.append(&mut next);
        proof {
            lemma_acquire_concat(start, needs_geometry, needs_scan);
        }
        let mut next = self.ray_map_create_buffers_images(dimensions);
        allocations.append(&mut next);
        proof {
            lemma_acquire_concat(start, needs_geometry + needs_scan, needs_rays);
        }
        let mut next = self.find_sign_create_buffers_images(dimensions);
        allocations.append(&mut next);
        proof {
            lemma_acquire_concat(start, needs_geometry + needs_scan + needs_rays, needs_signs);
        }
        let mut next = self.surface_closing_create_buffers_images(dimensions);
        allocations.append(&mut next);
        proof {
            lemma_acquire_concat(start, needs_geometry + needs_scan + needs_rays + needs_signs, needs_closing);
        }
        let mut next = self.dtw_create_buffers_images(dimensions);
        allocations.append(&mut next);
        proof {
            lemma_acquire_concat(start, needs_geometry + needs_scan + needs_rays + needs_signs + needs_closing, needs_distance);
        }
        allocations
    }

    /// Asks for everything the unsigned pipeline needs. Returns what has to
    /// be allocated.
    pub fn create_udf_buffers_images(&mut self, num_of_voxels: u32, dimensions: &[u32; 3]) -> (allocations:
        Vec<Requirement>)
        ensures
            allocations@ == old(self).udf_baker_resources.cache.allocations(
                udf_initialize::spec_udf_requirements(num_of_voxels, dimensions@),
            ),
            final(self).udf_baker_resources.cache == old(self).udf_baker_resources.cache.acquired(
                udf_initialize::spec_udf_requirements(num_of_voxels, dimensions@),
            ),
            final(self).udf_baker_resources.inventory == old(self).udf_baker_resources.inventory,
            final(self).sdf_baker_resources == old(self).sdf_baker_resources,
            final(self).scene == old(self).scene,
            final(self).num_of_meshes == old(self).num_of_meshes,
            final(self).settings == old(self).settings,
            final(self).is_rotating_camera == old(self).is_rotating_camera,
    {
        self.udf_initialize_create_buffers_images(num_of_voxels, dimensions)
    }

    /// Looks up the parameter sets of the signed pipeline, stage by stage,
    /// and says what is written into them.
    pub fn sdf_update(&self) -> (r: Result<Vec<Binding>, BakeError>)
        requires
            self.settings.valid(),
        ensures
            match r {
                Ok(bindings) => bindings@ == spec_sdf_bindings(
                    self.settings.sign_passes_count,
                    self.settings.max_resolution,
                ) && self.sdf_baker_resources.inventory.descriptor_sets_found(
                    spec_sdf_descriptor_sets(),
                ) is Ok,
                Err(e) => self.sdf_baker_resources.inventory.descriptor_sets_found(
                    spec_sdf_descriptor_sets(),
                ) == Err::<(), BakeError>(e),
            },
    {
        let ghost have = self.sdf_baker_resources.inventory.descriptor_sets@;
        let ghost sets_init = initialize::spec_initialize_descriptor_sets();
        let ghost sets_geometry = build_geometry::spec_build_geometry_descriptor_sets();
        let ghost sets_scan = prefix_sum::spec_prefix_sum_descriptor_sets();
        let ghost sets_rays = ray_map::spec_ray_map_descriptor_sets();
        let ghost sets_signs = find_sign::spec_find_sign_descriptor_sets();
        let ghost sets_closing = surface_closing::spec_surface_closing_descriptor_sets();
        let ghost sets_distance = distance_transform_winding::spec_dtw_descriptor_sets();
        proof {
            lemma_first_missing_descriptor_set_concat(have, sets_init, sets_geometry);
            lemma_first_missing_descriptor_set_concat(have, sets_init + sets_geometry, sets_scan);
            lemma_first_missing_descriptor_set_concat(have, sets_init + sets_geometry + sets_scan, sets_rays);
            lemma_first_missing_descriptor_set_concat(have, sets_init + sets_geometry + sets_scan + sets_rays, sets_signs);
            lemma_first_missing_descriptor_set_concat(have, sets_init + sets_geometry + sets_scan + sets_rays + sets_signs, sets_closing);
            lemma_first_missing_descriptor_set_concat(have, sets_init + sets_geometry + sets_scan + sets_rays + sets_signs + sets_closing, sets_distance);
        }
        let sign_map = find_sign::write_sign_map(self.settings.sign_passes_count);
        let steps = floor_log2(self.settings.max_resolution);
        let voxels_texture = surface_closing::write_voxels_texture(steps);
        let mut bindings = self.initialize_update()?;
        let mut next = self.build_geometry_update()?;
        bindings.append(&mut next);
        let mut next = self.prefix_sum_update()?;
        bindings.append(&mut next);
        let mut next = self.ray_map_update()?;
        bindings.append(&mut next);
        let mut next = self.find_sign_update()?;
        bindings.append(&mut next);
        let mut next = self.surface_closing_update(sign_map)?;
        bindings.append(&mut next);
        let mut next = self.dtw_update(sign_map, voxels_texture)?;
        bindings.append(&mut next);
        Ok(bindings)
    }

    /// Looks up the kernels of the signed pipeline, stage by stage, and
    /// records the stages in their order.
    pub fn sdf_compute(&self, num_of_triangles: u32, dimensions: &[u32; 3], num_of_voxels: u32) -> (r:
        Result<CommandList, BakeError>)
        requires
            self.settings.valid(),
            num_of_triangles <= build_geometry::MAX_TRIANGLES,
        ensures
            match r {
                Ok(commands) => commands@ == spec_sdf_commands(
                    num_of_triangles,
                    dimensions@,
                    num_of_voxels,
                    self.settings.sign_passes_count,
                    self.settings.max_resolution,
                ) && self.sdf_baker_resources.inventory.programs_found(
                    spec_sdf_programs(num_of_voxels),
                ) is Ok,
                Err(e) => self.sdf_baker_resources.inventory.programs_found(
                    spec_sdf_programs(num_of_voxels),
                ) == Err::<(), BakeError>(e),
            },
    {
        let ghost have = self.sdf_baker_resources.inventory.compute_programs@;
        let ghost kernels_init = initialize::spec_initialize_programs();
        let ghost kernels_geometry = build_geometry::spec_build_geometry_programs();
        let ghost kernels_scan = prefix_sum::spec_prefix_sum_programs(num_of_voxels);
        let ghost kernels_rays = ray_map::spec_ray_map_programs();
        let ghost kernels_signs = find_sign::spec_find_sign_programs();
        let ghost kernels_closing = surface_closing::spec_surface_closing_programs();
        let ghost kernels_distance = distance_transform_winding::spec_dtw_programs();
        proof {
            lemma_first_missing_program_concat(have, kernels_init, kernels_geometry);
            lemma_first_missing_program_concat(have, kernels_init + kernels_geometry, kernels_scan);
            lemma_first_missing_program_concat(have, kernels_init + kernels_geometry + kernels_scan, kernels_rays);
            lemma_first_missing_program_concat(have, kernels_init + kernels_geometry + kernels_scan + kernels_rays, kernels_signs);
            lemma_first_missing_program_concat(have, kernels_init + kernels_geometry + kernels_scan + kernels_rays + kernels_signs, kernels_closing);
            lemma_first_missing_program_concat(have, kernels_init + kernels_geometry + kernels_scan + kernels_rays + kernels_signs + kernels_closing, kernels_distance);
        }
        let mut commands = self.initialize_compute(dimensions)?;
        commands.append(self.build_geometry_compute(num_of_triangles)?);
        commands.append(self.build_geometry_draw_pass_1(num_of_triangles, dimensions));
        commands.append(self.prefix_sum_compute(num_of_voxels)?);
        commands.append(self.build_geometry_draw_pass_2(num_of_triangles, dimensions));
        commands.append(self.ray_map_compute(dimensions)?);
        let (signs, sign_map) = self.find_sign_compute(dimensions)?;
        commands.append(signs);
        let (closing, voxels_texture) = self.surface_closing_compute(sign_map, dimensions)?;
        commands.append(closing);
        commands.append(self.dtw_compute(voxels_texture, dimensions)?);
        Ok(commands)
    }

    /// Plans a bake of the signed field for the selected mesh, with the
    /// given estimate of the triangle-voxel incidences. On success the
    /// baker's resource cache holds everything the plan allocates; on
    /// failure the baker is as before.
    pub fn bake_sdf(&mut self, incidence_estimate: u64) -> (r: Result<SdfBake, BakeError>)
        requires
            old(self).settings.valid(),
            old(self).grid_fits(),
        ensures
            match r {
                Ok(bake) => {
                    &&& old(self).spec_selected() == Ok::<(int, int), BakeError>(
                        (bake.primitive.mesh as int, bake.primitive.primitive as int),
                    )
                    &&& bake.primitive.index_count == old(
                        self,
                    ).scene->0.meshes@[bake.primitive.mesh as int].primitives@[bake.primitive.primitive as int].index_count
                    &&& bake.num_of_triangles == bake.primitive.index_count / 3
                    &&& bake.dimensions@ == spec_grid_size(
                        old(self).settings.desired_size@,
                        old(self).settings.max_resolution,
                    )
                    &&& bake.num_of_voxels == spec_voxel_count(bake.dimensions@)
                    &&& bake.upper_bound_count == spec_upper_bound_count(incidence_estimate)
                    &&& bake.num_of_jfa_passes == surface_closing::spec_jfa_steps(
                        old(self).settings.max_resolution,
                    )
                    &&& bake.sign_map == find_sign::spec_write_sign_map(
                        old(self).settings.sign_passes_count as int,
                    )
                    &&& bake.voxels_texture == surface_closing::spec_write_voxels_texture(
                        bake.num_of_jfa_passes as int,
                    )
                    &&& bake.bindings@ == spec_sdf_bindings(
                        old(self).settings.sign_passes_count,
                        old(self).settings.max_resolution,
                    )
                    &&& bake.commands@ == spec_sdf_commands(
                        bake.num_of_triangles,
                        bake.dimensions@,
                        bake.num_of_voxels,
                        old(self).settings.sign_passes_count,
                        old(self).settings.max_resolution,
                    )
                    &&& bake.allocations@ == old(self).sdf_baker_resources.cache.allocations(
                        spec_sdf_requirements(
                            bake.num_of_triangles,
                            bake.dimensions@,
                            bake.num_of_voxels,
                            bake.upper_bound_count,
                        ),
                    )
                    &&& final(self).sdf_baker_resources.cache == old(
                        self,
                    ).sdf_baker_resources.cache.acquired(
                        spec_sdf_requirements(
                            bake.num_of_triangles,
                            bake.dimensions@,
                            bake.num_of_voxels,
                            bake.upper_bound_count,
                        ),
                    )
                    &&& final(self).sdf_baker_resources.inventory == old(
                        self,
                    ).sdf_baker_resources.inventory
                    &&& final(self).udf_baker_resources == old(self).udf_baker_resources
                    &&& final(self).scene == old(self).scene
                    &&& final(self).num_of_meshes == old(self).num_of_meshes
                    &&& final(self).settings == old(self).settings
                    &&& final(self).is_rotating_camera == old(self).is_rotating_camera
                    &&& old(self).spec_sdf_lookup(bake.num_of_voxels) is Ok
                },
                Err(e) => *final(self) == *old(self) && old(self).spec_sdf_lookup(
                    spec_voxel_count(
                        spec_grid_size(
                            old(self).settings.desired_size@,
                            old(self).settings.max_resolution,
                        ),
                    ) as u32,
                ) == Err::<(), BakeError>(e),
            },
    {
        let primitive = self.get_selected_mesh_primitive()?;
        let num_of_triangles = primitive.index_count / 3;
        let dimensions = self.estimate_grid_size();
        let num_of_voxels = match voxel_count(&dimensions) {
            Some(n) => n,
            None => {
                proof {
                    assert(false);
                }
                0
            },
        };
        let upper_bound_count = upper_bound_count(incidence_estimate);
        let num_of_jfa_passes = floor_log2(self.settings.max_resolution);
        let bindings = self.sdf_update()?;
        let commands = self.sdf_compute(num_of_triangles, &dimensions, num_of_voxels)?;
        let sign_map = find_sign::write_sign_map(self.settings.sign_passes_count);
        let voxels_texture = surface_closing::write_voxels_texture(num_of_jfa_passes);
        let allocations = self.create_sdf_buffers_images(
            num_of_triangles,
            &dimensions,
            num_of_voxels,
            upper_bound_count,
        );
        Ok(
            SdfBake {
                primitive,
                num_of_triangles,
                dimensions,
                num_of_voxels,
                upper_bound_count,
                num_of_jfa_passes,
                sign_map,
                voxels_texture,
                allocations,
                bindings,
                commands,
            },
        )
    }

    /// Plans a bake of the unsigned field for the selected mesh, by
    /// splatting the triangles. On success the baker's resource cache holds
    /// everything the plan allocates; on failure the baker is as before.
    pub fn bake_udf(&mut self) -> (r: Result<UdfBake, BakeError>)
        requires
            old(self).grid_fits(),
        ensures
            match r {
                Ok(bake) => {
                    &&& old(self).spec_selected() == Ok::<(int, int), BakeError>(
                        (bake.primitive.mesh as int, bake.primitive.primitive as int),
                    )
                    &&& bake.primitive.index_count == old(
                        self,
                    ).scene->0.meshes@[bake.primitive.mesh as int].primitives@[bake.primitive.primitive as int].index_count
                    &&& bake.num_of_triangles == bake.primitive.index_count / 3
                    &&& bake.dimensions@ == spec_grid_size(
                        old(self).settings.desired_size@,
                        old(self).settings.max_resolution,
                    )
                    &&& bake.num_of_voxels == spec_voxel_count(bake.dimensions@)
                    &&& bake.bindings@ == spec_udf_bindings()
                    &&& bake.commands@ == spec_udf_commands(bake.num_of_triangles, bake.dimensions@)
                    &&& bake.allocations@ == old(self).udf_baker_resources.cache.allocations(
                        udf_initialize::spec_udf_requirements(bake.num_of_voxels, bake.dimensions@),
                    )
                    &&& final(self).udf_baker_resources.cache == old(
                        self,
                    ).udf_baker_resources.cache.acquired(
                        udf_initialize::spec_udf_requirements(bake.num_of_voxels, bake.dimensions@),
                    )
                    &&& final(self).udf_baker_resources.inventory == old(
                        self,
                    ).udf_baker_resources.inventory
                    &&& final(self).sdf_baker_resources == old(self).sdf_baker_resources
                    &&& final(self).scene == old(self).scene
                    &&& final(self).num_of_meshes == old(self).num_of_meshes
                    &&& final(self).settings == old(self).settings
                    &&& final(self).is_rotating_camera == old(self).is_rotating_camera
                    &&& old(self).spec_udf_lookup() is Ok
                },
                Err(e) => *final(self) == *old(self) && old(self).spec_udf_lookup() == Err::<
                    (),
                    BakeError,
                >(e),
            },
    {
        let primitive = self.get_selected_mesh_primitive()?;
        let num_of_triangles = primitive.index_count / 3;
        let dimensions = self.estimate_grid_size();
        let num_of_voxels = match voxel_count(&dimensions) {
            Some(n) => n,
            None => {
                proof {
                    assert(false);
                }
                0
            },
        };
        let ghost have_sets = self.udf_baker_resources.inventory.descriptor_sets@;
        let ghost have = self.udf_baker_resources.inventory.compute_programs@;
        proof {
            lemma_first_missing_descriptor_set_concat(
                have_sets,
                udf_initialize::spec_udf_initialize_descriptor_sets(),
                splat_triangle_distance::spec_splat_descriptor_sets(),
            );
            lemma_first_missing_program_concat(
                have,
                udf_initialize::spec_udf_initialize_programs(),
                splat_triangle_distance::spec_splat_programs(),
            );
            lemma_first_missing_program_concat(
                have,
                udf_initialize::spec_udf_initialize_programs()
                    + splat_triangle_distance::spec_splat_programs(),
                udf_initialize::spec_udf_finalize_programs(),
            );
        }
        let mut bindings = self.udf_initialize_update()?;
        let mut next = self.splat_triangle_distance_update()?;
        bindings.append(&mut next);
        let mut commands = self.udf_initialize_compute_pass_1(&dimensions)?;
        commands.append(
            self.splat_triangle_distance_compute(
                group_count(num_of_triangles, build_geometry::TRIANGLES_PER_GROUP),
                1,
            )?,
        );
        commands.append(self.udf_initialize_compute_pass_2(&dimensions)?);
        let allocations = self.create_udf_buffers_images(num_of_voxels, &dimensions);
        Ok(
            UdfBake {
                primitive,
                num_of_triangles,
                dimensions,
                num_of_voxels,
                allocations,
                bindings,
                commands,
            },
        )
    }
}

} // verus!
