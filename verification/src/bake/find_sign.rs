//! The sign resolver: a first vote along six rays, then smoothing passes that
//! average each voxel with its neighbours, in ping-pong between two sign
//! maps.

use vstd::prelude::*;
use crate::bake::{grid_dispatch, spec_grid_dispatch};
use crate::baker::SDFBaker;
use crate::commands::{
    bind, general, sampled_image, storage_image, Binding, Command, CommandList,
    CommandView, Hazard, Image, PushValue,
};
use crate::error::BakeError;
use crate::programs::{ComputeProgram, DescriptorSet};
use crate::resources::{Extent, Requirement};

verus! {

/// Neighbours a smoothing pass averages over.
pub const SIGN_NEIGHBORS: u32 = 8;

/// Rays of the first vote.
pub const SIGN_RAYS: u32 = 6;

/// The factor the in/out threshold is scaled by: the first vote sums six
/// rays and is not normalized, so without smoothing the threshold is taken
/// six times; with smoothing the last pass normalizes.
pub open spec fn spec_threshold_scale(sign_passes_count: i32) -> u32 {
    if sign_passes_count == 0 {
        SIGN_RAYS
    } else {
        1
    }
}

/// The running normalization factor that smoothing pass `pass` is given:
/// the number of rays for the first pass, and from each pass to the next
/// multiplied by one plus the neighbours times the rays.
pub open spec fn spec_normalize_factor(pass: nat) -> nat
    decreases pass,
{
    if pass <= 1 {
        SIGN_RAYS as nat
    } else {
        spec_normalize_factor((pass - 1) as nat) * (1 + SIGN_NEIGHBORS as nat * SIGN_RAYS as nat)
    }
}

/// The sign map that smoothing pass `pass` reads.
pub open spec fn spec_read_sign_map(pass: int) -> Image {
    if pass % 2 == 0 {
        Image::SignMapBis
    } else {
        Image::SignMap
    }
}

/// The sign map that smoothing pass `pass` writes. Pass 0 is the first vote.
pub open spec fn spec_write_sign_map(pass: int) -> Image {
    if pass % 2 == 0 {
        Image::SignMap
    } else {
        Image::SignMapBis
    }
}

/// The parameter set that smoothing pass `pass` is bound with.
pub open spec fn spec_sign_pass_descriptor_set(pass: int) -> DescriptorSet {
    if pass % 2 == 0 {
        DescriptorSet::SignPassNeighbors
    } else {
        DescriptorSet::SignPassNeighbors2
    }
}

/// The two sign maps.
pub open spec fn spec_find_sign_requirements(dimensions: Seq<u32>) -> Seq<Requirement> {
    let extent = Extent { width: dimensions[0], height: dimensions[1], depth: dimensions[2] };
    seq![
        Requirement::Image { image: Image::SignMap, extent },
        Requirement::Image { image: Image::SignMapBis, extent },
    ]
}

/// The parameter sets of the stage, in the order they are looked up.
pub open spec fn spec_find_sign_descriptor_sets() -> Seq<DescriptorSet> {
    seq![
        DescriptorSet::SignPass6Rays,
        DescriptorSet::SignPassNeighbors,
        DescriptorSet::SignPassNeighbors2,
    ]
}

/// What the stage writes into its parameter sets: the first vote fills the
/// first sign map; of the two smoothing sets each reads one map and fills the
/// other.
pub open spec fn spec_find_sign_bindings() -> Seq<Binding> {
    seq![
        sampled_image(DescriptorSet::SignPass6Rays, 0, Image::RayMap),
        storage_image(DescriptorSet::SignPass6Rays, 1, Image::SignMap),
        sampled_image(DescriptorSet::SignPassNeighbors, 0, Image::RayMap),
        sampled_image(DescriptorSet::SignPassNeighbors, 1, Image::SignMapBis),
        storage_image(DescriptorSet::SignPassNeighbors, 2, Image::SignMap),
        sampled_image(DescriptorSet::SignPassNeighbors2, 0, Image::RayMap),
        sampled_image(DescriptorSet::SignPassNeighbors2, 1, Image::SignMap),
        storage_image(DescriptorSet::SignPassNeighbors2, 2, Image::SignMapBis),
    ]
}

/// The kernels of the stage, in the order they are looked up.
pub open spec fn spec_find_sign_programs() -> Seq<ComputeProgram> {
    seq![ComputeProgram::SignPass6Rays, ComputeProgram::SignPassNeighbors]
}

/// The push constants of smoothing pass `pass` of `count`: the running
/// factor, the neighbour count, the number of the pass, and whether the pass
/// normalizes its output, which only the last one does.
pub open spec fn spec_sign_pass_constants(pass: i32, count: i32) -> Seq<PushValue> {
    seq![
        PushValue::NormalizeFactor { pass: pass as u32 },
        PushValue::U32(SIGN_NEIGHBORS),
        PushValue::I32(pass),
        PushValue::U32(if pass == count { 1u32 } else { 0u32 }),
    ]
}

/// The commands of smoothing pass `pass` of `count`.
pub open spec fn spec_sign_pass(dimensions: Seq<u32>, pass: i32, count: i32) -> Seq<CommandView> {
    seq![
        CommandView::ImageBarriers(
            seq![
                general(spec_read_sign_map(pass as int), Hazard::WriteThenRead),
                general(spec_write_sign_map(pass as int), Hazard::Execution),
            ],
        ),
        bind(ComputeProgram::SignPassNeighbors, spec_sign_pass_descriptor_set(pass as int)),
        CommandView::PushConstants(spec_sign_pass_constants(pass, count)),
        spec_grid_dispatch(dimensions, 4),
    ]
}

/// The commands of the smoothing passes 1 to `passes` of `count`.
pub open spec fn spec_sign_passes(dimensions: Seq<u32>, passes: i32, count: i32) -> Seq<CommandView>
    decreases passes,
{
    if passes <= 0 {
        Seq::empty()
    } else {
        spec_sign_passes(dimensions, (passes - 1) as i32, count) + spec_sign_pass(
            dimensions,
            passes,
            count,
        )
    }
}

/// The first vote.
pub open spec fn spec_first_vote(dimensions: Seq<u32>) -> Seq<CommandView> {
    seq![
        CommandView::ImageBarriers(
            seq![
                general(Image::RayMap, Hazard::WriteThenRead),
                general(Image::SignMap, Hazard::Execution),
                general(Image::SignMapBis, Hazard::Execution),
            ],
        ),
        bind(ComputeProgram::SignPass6Rays, DescriptorSet::SignPass6Rays),
        spec_grid_dispatch(dimensions, 4),
    ]
}

/// The commands of the stage: the first vote, then the smoothing passes.
pub open spec fn spec_find_sign_commands(dimensions: Seq<u32>, sign_passes_count: i32) -> Seq<
    CommandView,
> {
    spec_first_vote(dimensions) + spec_sign_passes(dimensions, sign_passes_count, sign_passes_count)
}

/// The sign map that smoothing pass `pass` reads.
pub fn read_sign_map(pass: i32) -> (image: Image)
    ensures
        image == spec_read_sign_map(pass as int),
{
    if pass % 2 == 0 {
        Image::SignMapBis
    } else {
        Image::SignMap
    }
}

/// The sign map that smoothing pass `pass` writes; for pass 0 the map the
/// first vote fills.
pub fn write_sign_map(pass: i32) -> (image: Image)
    ensures
        image == spec_write_sign_map(pass as int),
{
    if pass % 2 == 0 {
        Image::SignMap
    } else {
        Image::SignMapBis
    }
}

/// The factor the in/out threshold is scaled by downstream of the sign
/// resolver.
pub fn threshold_scale(sign_passes_count: i32) -> (scale: u32)
    ensures
        scale == spec_threshold_scale(sign_passes_count),
{
    if sign_passes_count == 0 {
        SIGN_RAYS
    } else {
        1
    }
}

/// The running normalization factor of smoothing pass `pass`, where it fits
/// 64 bits.
pub fn normalize_factor(pass: u32) -> (factor: Option<u64>)
    ensures
        factor is Some <==> spec_normalize_factor(pass as nat) <= u64::MAX,
        factor is Some ==> factor->0 == spec_normalize_factor(pass as nat),
{
    let growth: u64 = 1 + SIGN_NEIGHBORS as u64 * SIGN_RAYS as u64;
    let mut factor: u64 = SIGN_RAYS as u64;
    let mut done: u32 = 1;
    if pass <= 1 {
        return Some(factor);
    }
    while done < pass
        invariant
            1 <= done <= pass,
            factor == spec_normalize_factor(done as nat),
            factor >= 1,
            growth == 1 + SIGN_NEIGHBORS * SIGN_RAYS,
        decreases pass - done,
    {
        proof {
            lemma_normalize_factor_grows((done + 1) as nat, pass as nat);
        }
        match factor.checked_mul(growth) {
            None => {
                return None;
            },
            Some(next) => {
                factor = next;
            },
        }
        done = done + 1;
    }
    Some(factor)
}

/// The running normalization factor never shrinks from one pass to a later
/// one.
pub proof fn lemma_normalize_factor_grows(earlier: nat, later: nat)
    requires
        earlier <= later,
    ensures
        1 <= spec_normalize_factor(earlier) <= spec_normalize_factor(later),
    decreases later,
{
    if later <= 1 {
    } else if earlier == later {
        lemma_normalize_factor_grows(1, (later - 1) as nat);
        assert(spec_normalize_factor((later - 1) as nat) * 49 >= 1) by (nonlinear_arith)
            requires
                spec_normalize_factor((later - 1) as nat) >= 1,
        ;
    } else {
        lemma_normalize_factor_grows(earlier, (later - 1) as nat);
        assert(spec_normalize_factor((later - 1) as nat) * 49 >= spec_normalize_factor(
            (later - 1) as nat,
        )) by (nonlinear_arith)
            requires
                spec_normalize_factor((later - 1) as nat) >= 1,
        ;
    }
}

/// In every smoothing pass the map that is read is not the map that is
/// written, each pass reads what the pass before it wrote, and the first
/// pass reads what the first vote wrote.
pub proof fn lemma_sign_maps_alternate(pass: int)
    requires
        pass >= 1,
    ensures
        spec_read_sign_map(pass) != spec_write_sign_map(pass),
        spec_read_sign_map(pass) == spec_write_sign_map(pass - 1),
        spec_write_sign_map(0) == Image::SignMap,
{
}

/// The parameter set a smoothing pass is bound with reads the map the pass
/// reads and fills the map the pass writes.
pub proof fn lemma_sign_pass_set_matches_maps(pass: int)
    requires
        pass >= 1,
    ensures
        spec_find_sign_bindings().contains(
            sampled_image(spec_sign_pass_descriptor_set(pass), 1, spec_read_sign_map(pass)),
        ),
        spec_find_sign_bindings().contains(
            storage_image(spec_sign_pass_descriptor_set(pass), 2, spec_write_sign_map(pass)),
        ),
{
    let bindings = spec_find_sign_bindings();
    if pass % 2 == 0 {
        assert(bindings[3] == sampled_image(DescriptorSet::SignPassNeighbors, 1, Image::SignMapBis));
        assert(bindings[4] == storage_image(DescriptorSet::SignPassNeighbors, 2, Image::SignMap));
    } else {
        assert(bindings[6] == sampled_image(DescriptorSet::SignPassNeighbors2, 1, Image::SignMap));
        assert(bindings[7] == storage_image(DescriptorSet::SignPassNeighbors2, 2, Image::SignMapBis));
    }
}

/// Of the smoothing passes only the last one is told to normalize, and
/// without smoothing the threshold is scaled by the number of rays instead.
pub proof fn lemma_only_last_pass_normalizes(pass: i32, count: i32)
    requires
        1 <= pass <= count,
    ensures
        spec_sign_pass_constants(pass, count)[3] == PushValue::U32(
            if pass == count {
                1u32
            } else {
                0u32
            },
        ),
        spec_threshold_scale(count) == 1,
        spec_threshold_scale(0) == SIGN_RAYS,
{
}

/// Records smoothing pass `pass` of `count`.
fn sign_pass(dimensions: &[u32; 3], pass: i32, count: i32) -> (commands: CommandList)
    requires
        1 <= pass <= count,
    ensures
        commands@ == spec_sign_pass(dimensions@, pass, count),
{
    let set = if pass % 2 == 0 {
        DescriptorSet::SignPassNeighbors
    } else {
        DescriptorSet::SignPassNeighbors2
    };
    let commands = CommandList::from_vec(
        vec![
            Command::ImageBarriers(
                vec![
                    general(read_sign_map(pass), Hazard::WriteThenRead),
                    general(write_sign_map(pass), Hazard::Execution),
                ],
            ),
            Command::BindCompute { program: ComputeProgram::SignPassNeighbors, descriptor_set: set },
            Command::PushConstants(
                vec![
                    PushValue::NormalizeFactor { pass: pass as u32 },
                    PushValue::U32(SIGN_NEIGHBORS),
                    PushValue::I32(pass),
                    PushValue::U32(if pass == count { 1u32 } else { 0u32 }),
                ],
            ),
            grid_dispatch(dimensions, 4),
        ],
    );
    assert(commands@ =~= spec_sign_pass(dimensions@, pass, count));
    commands
}

impl SDFBaker {
    /// Asks for the two sign maps. Returns those that have to be allocated.
    pub fn find_sign_create_buffers_images(&mut self, dimensions: &[u32; 3]) -> (allocations: Vec<
        Requirement,
    >)
        ensures
            allocations@ == old(self).sdf_baker_resources.cache.allocations(
                spec_find_sign_requirements(dimensions@),
            ),
            final(self).sdf_baker_resources.cache == old(self).sdf_baker_resources.cache.acquired(
                spec_find_sign_requirements(dimensions@),
            ),
            final(self).sdf_baker_resources.inventory == old(self).sdf_baker_resources.inventory,
            final(self).sdf_baker_resources.num_of_triangles == old(
                self,
            ).sdf_baker_resources.num_of_triangles,
            final(self).udf_baker_resources == old(self).udf_baker_resources,
            final(self).scene == old(self).scene,
            final(self).num_of_meshes == old(self).num_of_meshes,
            final(self).settings == old(self).settings,
            final(self).is_rotating_camera == old(self).is_rotating_camera,
    {
        let extent = Extent { width: dimensions[0], height: dimensions[1], depth: dimensions[2] };
        let requirements = vec![
            Requirement::Image { image: Image::SignMap, extent },
            Requirement::Image { image: Image::SignMapBis, extent },
        ];
        assert(requirements@ =~= spec_find_sign_requirements(dimensions@));
        self.sdf_baker_resources.cache.acquire(&requirements)
    }

    /// Looks up the parameter sets of the stage and says what is written
    /// into them.
    pub fn find_sign_update(&self) -> (r: Result<Vec<Binding>, BakeError>)
        ensures
            match r {
                Ok(bindings) => bindings@ == spec_find_sign_bindings()
                    && self.sdf_baker_resources.inventory.descriptor_sets_found(
                    spec_find_sign_descriptor_sets(),
                ) is Ok,
                Err(e) => self.sdf_baker_resources.inventory.descriptor_sets_found(
                    spec_find_sign_descriptor_sets(),
                ) == Err::<(), BakeError>(e),
            },
    {
        let needed = vec![
            DescriptorSet::SignPass6Rays,
            DescriptorSet::SignPassNeighbors,
            DescriptorSet::SignPassNeighbors2,
        ];
        assert(needed@ =~= spec_find_sign_descriptor_sets());
        self.sdf_baker_resources.inventory.require_descriptor_sets(&needed)?;
        let bindings = vec![
            sampled_image(DescriptorSet::SignPass6Rays, 0, Image::RayMap),
            storage_image(DescriptorSet::SignPass6Rays, 1, Image::SignMap),
            sampled_image(DescriptorSet::SignPassNeighbors, 0, Image::RayMap),
            sampled_image(DescriptorSet::SignPassNeighbors, 1, Image::SignMapBis),
            storage_image(DescriptorSet::SignPassNeighbors, 2, Image::SignMap),
            sampled_image(DescriptorSet::SignPassNeighbors2, 0, Image::RayMap),
            sampled_image(DescriptorSet::SignPassNeighbors2, 1, Image::SignMap),
            storage_image(DescriptorSet::SignPassNeighbors2, 2, Image::SignMapBis),
        ];
        assert(bindings@ =~= spec_find_sign_bindings());
        Ok(bindings)
    }

    /// Looks up the kernels of the stage and records the first vote and the
    /// smoothing passes the settings ask for. Returns the commands and the
    /// sign map that holds the result, which is the one the last pass wrote.
    pub fn find_sign_compute(&self, dimensions: &[u32; 3]) -> (r: Result<(CommandList, Image), BakeError>)
        requires
            self.settings.sign_passes_count >= 0,
        ensures
            match r {
                Ok((commands, sign_map)) => commands@ == spec_find_sign_commands(
                    dimensions@,
                    self.settings.sign_passes_count,
                ) && sign_map == spec_write_sign_map(self.settings.sign_passes_count as int)
                    && self.sdf_baker_resources.inventory.programs_found(spec_find_sign_programs())
                    is Ok,
                Err(e) => self.sdf_baker_resources.inventory.programs_found(
                    spec_find_sign_programs(),
                ) == Err::<(), BakeError>(e),
            },
    {
        let needed = vec![ComputeProgram::SignPass6Rays, ComputeProgram::SignPassNeighbors];
        assert(needed@ =~= spec_find_sign_programs());
        self.sdf_baker_resources.inventory.require_programs(&needed)?;

        let count = self.settings.sign_passes_count;
        let mut commands = CommandList::from_vec(
            vec![
                Command::ImageBarriers(
                    vec![
                        general(Image::RayMap, Hazard::WriteThenRead),
                        general(Image::SignMap, Hazard::Execution),
                        general(Image::SignMapBis, Hazard::Execution),
                    ],
                ),
                Command::BindCompute {
                    program: ComputeProgram::SignPass6Rays,
                    descriptor_set: DescriptorSet::SignPass6Rays,
                },
                grid_dispatch(dimensions, 4),
            ],
        );
        assert(commands@ =~= spec_first_vote(dimensions@));
        let mut done: i32 = 0;
        while done < count
            invariant
                0 <= done <= count,
                commands@ == spec_first_vote(dimensions@) + spec_sign_passes(dimensions@, done, count),
            decreases count - done,
        {
            done = done + 1;
            let pass = sign_pass(dimensions, done, count);
            proof {
                assert(spec_first_vote(dimensions@) + spec_sign_passes(dimensions@, done, count)
                    =~= (spec_first_vote(dimensions@) + spec_sign_passes(
                    dimensions@,
                    (done - 1) as i32,
                    count,
                )) + pass@);
            }
            commands.append(pass);
        }
        Ok((commands, write_sign_map(count)))
    }
}

} // verus!
