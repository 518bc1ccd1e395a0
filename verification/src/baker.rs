//! The baker: its settings, what it has loaded and allocated, and the scene
//! it bakes from.

use vstd::prelude::*;
use crate::config::{
    spec_compute_bindings, spec_graphics_bindings, BakerConfig, ComputeProgramDesc,
};
use crate::error::BakeError;
use crate::programs::{ComputeProgram, DescriptorSet, GraphicsProgram};
use crate::grid::{
    estimate_grid_size, max_extent, reference_axis, spec_grid_size, spec_max_extent,
    spec_reference_axis, Axis,
};
use crate::inventory::{lemma_push_contains, Inventory};
use crate::resources::{Requirement, ResourceCache};
use crate::settings::{spec_default_settings, SDFBakerSettings};

verus! {

/// One drawable part of a mesh, as far as baking reads it.
#[derive(Clone, Copy, Debug, PartialEq, Eq, Structural)]
pub struct Primitive {
    /// Number of indices; three of them make a triangle.
    pub index_count: u32,
}

/// A mesh of the scene.
#[derive(Clone, Debug, PartialEq, Eq)]
pub struct Mesh {
    pub primitives: Vec<Primitive>,
}

/// The scene that was handed to the baker.
#[derive(Clone, Debug, PartialEq, Eq)]
pub struct Scene {
    pub meshes: Vec<Mesh>,
}

/// What the signed-distance pipeline has loaded and allocated.
#[derive(Clone, Debug, PartialEq, Eq)]
pub struct SDFBakerResources {
    pub inventory: Inventory,
    pub cache: ResourceCache,
    /// Triangle count the vertices buffer was last made for.
    pub num_of_triangles: u32,
}

/// What the unsigned-distance pipeline has loaded and allocated.
#[derive(Clone, Debug, PartialEq, Eq)]
pub struct UDFBakerResources {
    pub inventory: Inventory,
    pub cache: ResourceCache,
}

/// The baker.
#[derive(Clone, Debug, PartialEq, Eq)]
pub struct SDFBaker {
    pub sdf_baker_resources: SDFBakerResources,
    pub udf_baker_resources: UDFBakerResources,
    pub scene: Option<Scene>,
    pub num_of_meshes: usize,
    pub settings: SDFBakerSettings,
    pub is_rotating_camera: bool,
}

/// Whether a kernel is configured.
pub open spec fn spec_program_configured(config: Seq<ComputeProgramDesc>, program: ComputeProgram) -> bool {
    exists|i: int| 0 <= i < config.len() && (#[trigger] config[i]).program == program
}

/// Whether a kernel is configured with bindings, so that its parameter set
/// is made along with it.
pub open spec fn spec_set_configured(config: Seq<ComputeProgramDesc>, set: DescriptorSet) -> bool {
    exists|i: int|
        0 <= i < config.len() && (#[trigger] config[i]).bindings > 0
            && config[i].program.spec_descriptor_set() == set
}

/// Whether the first entry for a kernel has bindings.
pub open spec fn spec_has_bindings(config: Seq<ComputeProgramDesc>, program: ComputeProgram) -> bool {
    match spec_compute_bindings(config, program) {
        Some(bindings) => bindings > 0,
        None => false,
    }
}

/// Whether the set is the second set of a kernel that runs in ping-pong and
/// is configured with bindings.
pub open spec fn spec_second_set_configured(config: Seq<ComputeProgramDesc>, set: DescriptorSet) -> bool {
    match set {
        DescriptorSet::InBucketSum2 => spec_has_bindings(config, ComputeProgram::InBucketSum),
        DescriptorSet::BlockSum2 => spec_has_bindings(config, ComputeProgram::BlockSum),
        DescriptorSet::FinalSum2 => spec_has_bindings(config, ComputeProgram::FinalSum),
        DescriptorSet::SignPassNeighbors2 => spec_has_bindings(
            config,
            ComputeProgram::SignPassNeighbors,
        ),
        DescriptorSet::Jfa2 => spec_has_bindings(config, ComputeProgram::Jfa),
        _ => false,
    }
}

/// Whether the set belongs to one of the two rasterizing programs.
pub open spec fn spec_graphics_set(set: DescriptorSet) -> bool {
    set == DescriptorSet::WriteUvwAndCoverage || set == DescriptorSet::WriteTriangleIdsToVoxels
}

/// What stops the signed pipeline from being made, if anything: the first
/// kernel that runs in ping-pong and is not configured, else the first
/// rasterizing program that is not configured.
pub open spec fn spec_sdf_resources_failure(config: BakerConfig) -> Option<BakeError> {
    let compute = config.compute_programs@;
    let graphics = config.graphics_programs@;
    if spec_compute_bindings(compute, ComputeProgram::InBucketSum) is None {
        Some(BakeError::ProgramMissing(ComputeProgram::InBucketSum))
    } else if spec_compute_bindings(compute, ComputeProgram::BlockSum) is None {
        Some(BakeError::ProgramMissing(ComputeProgram::BlockSum))
    } else if spec_compute_bindings(compute, ComputeProgram::FinalSum) is None {
        Some(BakeError::ProgramMissing(ComputeProgram::FinalSum))
    } else if spec_compute_bindings(compute, ComputeProgram::SignPassNeighbors) is None {
        Some(BakeError::ProgramMissing(ComputeProgram::SignPassNeighbors))
    } else if spec_compute_bindings(compute, ComputeProgram::Jfa) is None {
        Some(BakeError::ProgramMissing(ComputeProgram::Jfa))
    } else if spec_graphics_bindings(graphics, GraphicsProgram::WriteUvwAndCoverage) is None {
        Some(BakeError::GraphicsProgramMissing(GraphicsProgram::WriteUvwAndCoverage))
    } else if spec_graphics_bindings(graphics, GraphicsProgram::WriteTriangleIdsToVoxels) is None {
        Some(BakeError::GraphicsProgramMissing(GraphicsProgram::WriteTriangleIdsToVoxels))
    } else {
        None
    }
}

/// Loads every configured kernel and makes the parameter set of each one
/// that has bindings.
fn load_compute_programs(config: &BakerConfig) -> (inventory: Inventory)
    ensures
        forall|p: ComputeProgram|
            inventory.has_program(p) <==> spec_program_configured(config.compute_programs@, p),
        forall|s: DescriptorSet|
            inventory.has_descriptor_set(s) <==> spec_set_configured(config.compute_programs@, s),
{
    let mut inventory = Inventory::new();
    let mut i: usize = 0;
    let ghost all = config.compute_programs@;
    while i < config.compute_programs.len()
        invariant
            i <= config.compute_programs.len(),
            all == config.compute_programs@,
            forall|p: ComputeProgram|
                inventory.has_program(p) <==> spec_program_configured(all.take(i as int), p),
            forall|s: DescriptorSet|
                inventory.has_descriptor_set(s) <==> spec_set_configured(all.take(i as int), s),
        decreases config.compute_programs.len() - i,
    {
        let desc = config.compute_programs[i];
        let ghost before = all.take(i as int);
        let ghost after = all.take(i + 1);
        let ghost had = inventory;
        if desc.bindings > 0 {
            inventory.add_descriptor_set(desc.program.descriptor_set());
        }
        inventory.add_program(desc.program);
        proof {
            assert(after =~= before.push(desc));
            assert forall|p: ComputeProgram|
                inventory.has_program(p) <==> spec_program_configured(after, p) by {
                lemma_push_contains(had.compute_programs@, desc.program, p);
                assert(had.has_program(p) <==> spec_program_configured(before, p));
                if spec_program_configured(before, p) {
                    let j = choose|j: int| 0 <= j < before.len() && (#[trigger] before[j]).program == p;
                    assert(after[j].program == p);
                }
                if p == desc.program {
                    assert(after[i as int].program == p);
                }
                if spec_program_configured(after, p) {
                    let j = choose|j: int| 0 <= j < after.len() && (#[trigger] after[j]).program == p;
                    if j < i {
                        assert(before[j].program == p);
                    }
                }
            }
            assert forall|s: DescriptorSet|
                inventory.has_descriptor_set(s) <==> spec_set_configured(after, s) by {
                lemma_push_contains(had.descriptor_sets@, desc.program.spec_descriptor_set(), s);
                assert(had.has_descriptor_set(s) <==> spec_set_configured(before, s));
                if spec_set_configured(before, s) {
                    let j = choose|j: int|
                        0 <= j < before.len() && (#[trigger] before[j]).bindings > 0
                            && before[j].program.spec_descriptor_set() == s;
                    assert(after[j].bindings > 0 && after[j].program.spec_descriptor_set() == s);
                }
                if desc.bindings > 0 && s == desc.program.spec_descriptor_set() {
                    assert(after[i as int].bindings > 0);
                }
                if spec_set_configured(after, s) {
                    let j = choose|j: int|
                        0 <= j < after.len() && (#[trigger] after[j]).bindings > 0
                            && after[j].program.spec_descriptor_set() == s;
                    if j < i {
                        assert(before[j].bindings > 0 && before[j].program.spec_descriptor_set() == s);
                    }
                }
            }
        }
        i = i + 1;
    }
    proof {
        assert(all.take(i as int) =~= all);
    }
    inventory
}

/// Makes the second parameter set of a kernel that runs in ping-pong, where
/// the kernel has bindings. Fails where the kernel is not configured.
fn add_second_set(inventory: &mut Inventory, config: &BakerConfig, program: ComputeProgram) -> (r: Result<
    (),
    BakeError,
>)
    requires
        program.spec_second_descriptor_set() is Some,
    ensures
        final(inventory).compute_programs@ == old(inventory).compute_programs@,
        match r {
            Ok(_) => spec_compute_bindings(config.compute_programs@, program) is Some && (forall|
                s: DescriptorSet,
            |
                final(inventory).has_descriptor_set(s) <==> old(inventory).has_descriptor_set(s) || (
                Some(s) == program.spec_second_descriptor_set() && spec_has_bindings(
                    config.compute_programs@,
                    program,
                ))),
            Err(e) => spec_compute_bindings(config.compute_programs@, program) is None && e
                == BakeError::ProgramMissing(program) && final(inventory).descriptor_sets@ == old(
                inventory,
            ).descriptor_sets@,
        },
{
    match config.compute_bindings(program) {
        None => Err(BakeError::ProgramMissing(program)),
        Some(bindings) => {
            if bindings > 0 {
                match program.second_descriptor_set() {
                    Some(set) => {
                        inventory.add_descriptor_set(set);
                    },
                    None => {},
                }
            }
            Ok(())
        },
    }
}

/// Makes the parameter set of a rasterizing program. Fails where the program
/// is not configured.
fn add_graphics_set(inventory: &mut Inventory, config: &BakerConfig, program: GraphicsProgram) -> (r:
    Result<(), BakeError>)
    ensures
        final(inventory).compute_programs@ == old(inventory).compute_programs@,
        match r {
            Ok(_) => spec_graphics_bindings(config.graphics_programs@, program) is Some && (forall|
                s: DescriptorSet,
            |
                final(inventory).has_descriptor_set(s) <==> old(inventory).has_descriptor_set(s) || s
                    == program.spec_descriptor_set()),
            Err(e) => spec_graphics_bindings(config.graphics_programs@, program) is None && e
                == BakeError::GraphicsProgramMissing(program) && final(inventory).descriptor_sets@
                == old(inventory).descriptor_sets@,
        },
{
    match config.graphics_bindings(program) {
        None => Err(BakeError::GraphicsProgramMissing(program)),
        Some(_) => {
            inventory.add_descriptor_set(program.descriptor_set());
            Ok(())
        },
    }
}

impl SDFBakerResources {
    /// Whether the resources are what the configuration makes them before
    /// anything is allocated: the configured kernels, their parameter sets,
    /// the second sets of the kernels in ping-pong and the sets of the two
    /// rasterizing programs.
    pub open spec fn loaded_from(&self, config: BakerConfig) -> bool {
        &&& forall|p: ComputeProgram|
            self.inventory.has_program(p) <==> spec_program_configured(config.compute_programs@, p)
        &&& forall|s: DescriptorSet|
            self.inventory.has_descriptor_set(s) <==> spec_set_configured(config.compute_programs@, s)
                || spec_second_set_configured(config.compute_programs@, s) || spec_graphics_set(s)
        &&& forall|requirement: Requirement| !self.cache.satisfies(requirement)
        &&& self.num_of_triangles == 0
    }

    /// Decides what the signed pipeline loads from its configuration: every
    /// configured kernel; the parameter set of each kernel that has
    /// bindings, and a second one for each kernel that runs in ping-pong;
    /// the parameter sets of the two rasterizing programs. Nothing is
    /// allocated yet.
    pub fn new(config: &BakerConfig) -> (r: Result<SDFBakerResources, BakeError>)
        ensures
            match r {
                Ok(resources) => spec_sdf_resources_failure(*config) is None
                    && resources.loaded_from(*config),
                Err(e) => spec_sdf_resources_failure(*config) == Some(e),
            },
    {
        let mut inventory = load_compute_programs(config);
        let ghost i0 = inventory;
        add_second_set(&mut inventory, config, ComputeProgram::InBucketSum)?;
        let ghost i1 = inventory;
        add_second_set(&mut inventory, config, ComputeProgram::BlockSum)?;
        let ghost i2 = inventory;
        add_second_set(&mut inventory, config, ComputeProgram::FinalSum)?;
        let ghost i3 = inventory;
        add_second_set(&mut inventory, config, ComputeProgram::SignPassNeighbors)?;
        let ghost i4 = inventory;
        add_second_set(&mut inventory, config, ComputeProgram::Jfa)?;
        let ghost i5 = inventory;
        add_graphics_set(&mut inventory, config, GraphicsProgram::WriteUvwAndCoverage)?;
        let ghost i6 = inventory;
        add_graphics_set(&mut inventory, config, GraphicsProgram::WriteTriangleIdsToVoxels)?;
        let cache = ResourceCache::new();
        proof {
            let compute = config.compute_programs@;
            assert forall|s: DescriptorSet|
                inventory.has_descriptor_set(s) <==> spec_set_configured(compute, s)
                    || spec_second_set_configured(compute, s) || spec_graphics_set(s) by {
                assert(i0.has_descriptor_set(s) <==> spec_set_configured(compute, s));
                assert(i1.has_descriptor_set(s) <==> i0.has_descriptor_set(s) || (Some(s)
                    == ComputeProgram::InBucketSum.spec_second_descriptor_set() && spec_has_bindings(
                    compute,
                    ComputeProgram::InBucketSum,
                )));
                assert(i2.has_descriptor_set(s) <==> i1.has_descriptor_set(s) || (Some(s)
                    == ComputeProgram::BlockSum.spec_second_descriptor_set() && spec_has_bindings(
                    compute,
                    ComputeProgram::BlockSum,
                )));
                assert(i3.has_descriptor_set(s) <==> i2.has_descriptor_set(s) || (Some(s)
                    == ComputeProgram::FinalSum.spec_second_descriptor_set() && spec_has_bindings(
                    compute,
                    ComputeProgram::FinalSum,
                )));
                assert(i4.has_descriptor_set(s) <==> i3.has_descriptor_set(s) || (Some(s)
                    == ComputeProgram::SignPassNeighbors.spec_second_descriptor_set()
                    && spec_has_bindings(compute, ComputeProgram::SignPassNeighbors)));
                assert(i5.has_descriptor_set(s) <==> i4.has_descriptor_set(s) || (Some(s)
                    == ComputeProgram::Jfa.spec_second_descriptor_set() && spec_has_bindings(
                    compute,
                    ComputeProgram::Jfa,
                )));
                assert(i6.has_descriptor_set(s) <==> i5.has_descriptor_set(s) || s
                    == GraphicsProgram::WriteUvwAndCoverage.spec_descriptor_set());
                assert(inventory.has_descriptor_set(s) <==> i6.has_descriptor_set(s) || s
                    == GraphicsProgram::WriteTriangleIdsToVoxels.spec_descriptor_set());
            }
            assert forall|p: ComputeProgram|
                inventory.has_program(p) <==> spec_program_configured(compute, p) by {
                assert(i0.has_program(p) <==> spec_program_configured(compute, p));
            }
            assert forall|requirement: Requirement| !cache.satisfies(requirement) by {
                match requirement {
                    Requirement::Buffer { buffer, size } => {
                        assert(cache.spec_buffer(buffer) is None);
                    },
                    Requirement::Image { image, extent } => {
                        assert(cache.spec_image(image) is None);
                    },
                    Requirement::Pipeline { program, projection, extent } => {
                        assert(cache.spec_pipeline(program, projection) is None);
                    },
                }
            }
        }
        Ok(SDFBakerResources { inventory, cache, num_of_triangles: 0 })
    }
}

impl UDFBakerResources {
    /// Whether the resources are what the configuration makes them before
    /// anything is allocated: the configured kernels and their parameter
    /// sets.
    pub open spec fn loaded_from(&self, config: BakerConfig) -> bool {
        &&& forall|p: ComputeProgram|
            self.inventory.has_program(p) <==> spec_program_configured(config.compute_programs@, p)
        &&& forall|s: DescriptorSet|
            self.inventory.has_descriptor_set(s) <==> spec_set_configured(config.compute_programs@, s)
        &&& forall|requirement: Requirement| !self.cache.satisfies(requirement)
    }

    /// Decides what the unsigned pipeline loads from its configuration:
    /// every configured kernel, and the parameter set of each kernel that
    /// has bindings. Nothing is allocated yet.
    pub fn new(config: &BakerConfig) -> (resources: UDFBakerResources)
        ensures
            resources.loaded_from(*config),
    {
        let cache = ResourceCache::new();
        proof {
            assert forall|requirement: Requirement| !cache.satisfies(requirement) by {
                match requirement {
                    Requirement::Buffer { buffer, size } => {
                        assert(cache.spec_buffer(buffer) is None);
                    },
                    Requirement::Image { image, extent } => {
                        assert(cache.spec_image(image) is None);
                    },
                    Requirement::Pipeline { program, projection, extent } => {
                        assert(cache.spec_pipeline(program, projection) is None);
                    },
                }
            }
        }
        UDFBakerResources { inventory: load_compute_programs(config), cache }
    }
}

/// A primitive of the scene, found by its number.
#[derive(Clone, Copy, Debug, PartialEq, Eq, Structural)]
pub struct SelectedPrimitive {
    /// Position of the mesh in the scene.
    pub mesh: usize,
    /// Position of the primitive in the mesh.
    pub primitive: usize,
    /// Number of indices of the primitive.
    pub index_count: u32,
}

/// The grid snapped to the desired box: the voxel counts, the axis they
/// were scaled by, and the edge of a voxel as a fraction of length units.
#[derive(Clone, Copy, Debug, PartialEq, Eq)]
pub struct SnappedBox {
    pub dimensions: [u32; 3],
    pub reference: Axis,
    pub voxel_size_numerator: u64,
    pub voxel_size_denominator: u32,
}

/// Number of primitives in a list of meshes.
pub open spec fn spec_primitive_count(meshes: Seq<Mesh>) -> int
    decreases meshes.len(),
{
    if meshes.len() == 0 {
        0
    } else {
        meshes[0].primitives@.len() + spec_primitive_count(meshes.drop_first())
    }
}

/// The mesh and the place in it of the primitive with the given number,
/// counting the primitives of all meshes in order from 0.
pub open spec fn spec_locate(meshes: Seq<Mesh>, index: int) -> Option<(int, int)>
    decreases meshes.len(),
{
    if meshes.len() == 0 || index < 0 {
        None
    } else if index < meshes[0].primitives@.len() {
        Some((0, index))
    } else {
        match spec_locate(meshes.drop_first(), index - meshes[0].primitives@.len()) {
            Some((mesh, primitive)) => Some((mesh + 1, primitive)),
            None => None,
        }
    }
}

/// A primitive is found exactly for the numbers below the primitive count,
/// and then it is the one that has that many primitives before it.
pub proof fn lemma_locate(meshes: Seq<Mesh>, index: int)
    ensures
        spec_locate(meshes, index) is Some <==> 0 <= index < spec_primitive_count(meshes),
        spec_locate(meshes, index) is Some ==> {
            let (mesh, primitive) = spec_locate(meshes, index)->0;
            &&& 0 <= mesh < meshes.len()
            &&& 0 <= primitive < meshes[mesh].primitives@.len()
            &&& spec_primitive_count(meshes.take(mesh)) + primitive == index
        },
    decreases meshes.len(),
{
    if meshes.len() == 0 || index < 0 {
        lemma_primitive_count_nonnegative(meshes);
    } else if index < meshes[0].primitives@.len() {
        lemma_primitive_count_nonnegative(meshes.drop_first());
        assert(meshes.take(0) =~= Seq::<Mesh>::empty());
    } else {
        let rest = meshes.drop_first();
        let shifted = index - meshes[0].primitives@.len();
        lemma_locate(rest, shifted);
        if spec_locate(rest, shifted) is Some {
            let (mesh, primitive) = spec_locate(rest, shifted)->0;
            assert(meshes.take(mesh + 1).drop_first() =~= rest.take(mesh));
            assert(meshes.take(mesh + 1)[0] == meshes[0]);
        }
    }
}

/// A primitive count is not negative.
pub proof fn lemma_primitive_count_nonnegative(meshes: Seq<Mesh>)
    ensures
        spec_primitive_count(meshes) >= 0,
    decreases meshes.len(),
{
    if meshes.len() > 0 {
        lemma_primitive_count_nonnegative(meshes.drop_first());
    }
}

impl Scene {
    /// The primitive with the given number, if the scene has that many.
    pub fn locate(&self, index: i32) -> (found: Option<SelectedPrimitive>)
        ensures
            found is Some <==> spec_locate(self.meshes@, index as int) is Some,
            found is Some ==> {
                let (mesh, primitive) = spec_locate(self.meshes@, index as int)->0;
                &&& found->0.mesh == mesh
                &&& found->0.primitive == primitive
                &&& 0 <= mesh < self.meshes@.len()
                &&& 0 <= primitive < self.meshes@[mesh].primitives@.len()
                &&& found->0.index_count == self.meshes@[mesh].primitives@[primitive].index_count
            },
    {
        if index < 0 {
            return None;
        }
        let mut remaining: usize = index as usize;
        let mut mesh: usize = 0;
        assert(self.meshes@.skip(0) =~= self.meshes@);
        while mesh < self.meshes.len()
            invariant
                mesh <= self.meshes.len(),
                0 <= remaining <= index,
                spec_locate(self.meshes@, index as int) == (match spec_locate(
                    self.meshes@.skip(mesh as int),
                    remaining as int,
                ) {
                    Some((m, p)) => Some((m + mesh, p)),
                    None => None,
                }),
            decreases self.meshes.len() - mesh,
        {
            let primitives = &self.meshes[mesh].primitives;
            proof {
                assert(self.meshes@.skip(mesh as int)[0] == self.meshes@[mesh as int]);
                assert(self.meshes@.skip(mesh as int).drop_first() =~= self.meshes@.skip(mesh + 1));
            }
            if remaining < primitives.len() {
                return Some(
                    SelectedPrimitive {
                        mesh,
                        primitive: remaining,
                        index_count: primitives[remaining].index_count,
                    },
                );
            }
            remaining = remaining - primitives.len();
            mesh = mesh + 1;
        }
        None
    }
}

impl SDFBaker {
    /// Makes a baker from the configurations of its two pipelines, with the
    /// default settings and no scene.
    pub fn new(sdf_config: &BakerConfig, udf_config: &BakerConfig) -> (r: Result<SDFBaker, BakeError>)
        ensures
            match r {
                Ok(baker) => {
                    &&& spec_sdf_resources_failure(*sdf_config) is None
                    &&& baker.sdf_baker_resources.loaded_from(*sdf_config)
                    &&& baker.udf_baker_resources.loaded_from(*udf_config)
                    &&& baker.scene is None
                    &&& baker.num_of_meshes == 0
                    &&& baker.settings == spec_default_settings()
                    &&& baker.settings.valid()
                    &&& !baker.is_rotating_camera
                },
                Err(e) => spec_sdf_resources_failure(*sdf_config) == Some(e),
            },
    {
        let sdf_baker_resources = SDFBakerResources::new(sdf_config)?;
        let udf_baker_resources = UDFBakerResources::new(udf_config);
        Ok(
            SDFBaker {
                sdf_baker_resources,
                udf_baker_resources,
                scene: None,
                num_of_meshes: 0,
                settings: SDFBakerSettings::default(),
                is_rotating_camera: false,
            },
        )
    }

    /// Takes a scene to bake from, in place of the one before, and counts
    /// its primitives on top of those counted so far.
    pub fn set_scene(&mut self, scene: Scene)
        requires
            old(self).num_of_meshes + spec_primitive_count(scene.meshes@) <= usize::MAX,
        ensures
            final(self).scene == Some(scene),
            final(self).num_of_meshes == old(self).num_of_meshes + spec_primitive_count(
                scene.meshes@,
            ),
            final(self).sdf_baker_resources == old(self).sdf_baker_resources,
            final(self).udf_baker_resources == old(self).udf_baker_resources,
            final(self).settings == old(self).settings,
            final(self).is_rotating_camera == old(self).is_rotating_camera,
    {
        let mut mesh: usize = 0;
        let ghost total = spec_primitive_count(scene.meshes@);
        assert(scene.meshes@.skip(0) =~= scene.meshes@);
        while mesh < scene.meshes.len()
            invariant
                mesh <= scene.meshes.len(),
                total == spec_primitive_count(scene.meshes@),
                self.num_of_meshes + spec_primitive_count(scene.meshes@.skip(mesh as int)) == old(
                    self,
                ).num_of_meshes + total,
                old(self).num_of_meshes + total <= usize::MAX,
                self.sdf_baker_resources == old(self).sdf_baker_resources,
                self.udf_baker_resources == old(self).udf_baker_resources,
                self.settings == old(self).settings,
                self.is_rotating_camera == old(self).is_rotating_camera,
            decreases scene.meshes.len() - mesh,
        {
            proof {
                assert(scene.meshes@.skip(mesh as int)[0] == scene.meshes@[mesh as int]);
                assert(scene.meshes@.skip(mesh as int).drop_first() =~= scene.meshes@.skip(mesh + 1));
                lemma_primitive_count_nonnegative(scene.meshes@.skip(mesh + 1));
            }
            self.num_of_meshes = self.num_of_meshes + scene.meshes[mesh].primitives.len();
            mesh = mesh + 1;
        }
        self.scene = Some(scene);
    }

    /// The primitive the settings select, if a scene is set and has it.
    pub open spec fn spec_selected(&self) -> Result<(int, int), BakeError> {
        match self.scene {
            None => Err(BakeError::SceneMissing),
            Some(scene) => match spec_locate(
                scene.meshes@,
                self.settings.selected_mesh_index as int,
            ) {
                None => Err(BakeError::MeshMissing),
                Some(place) => Ok(place),
            },
        }
    }

    /// Number of meshes counted so far, one per primitive of every scene
    /// that was set.
    pub fn get_num_of_meshes(&self) -> (n: usize)
        ensures
            n == self.num_of_meshes,
    {
        self.num_of_meshes
    }

    /// Starts turning the camera with the pointer.
    pub fn begin_rotate_camera(&mut self)
        ensures
            final(self).is_rotating_camera,
            final(self).sdf_baker_resources == old(self).sdf_baker_resources,
            final(self).udf_baker_resources == old(self).udf_baker_resources,
            final(self).scene == old(self).scene,
            final(self).num_of_meshes == old(self).num_of_meshes,
            final(self).settings == old(self).settings,
    {
        self.is_rotating_camera = true;
    }

    /// Stops turning the camera with the pointer.
    pub fn end_rotate_camera(&mut self)
        ensures
            !final(self).is_rotating_camera,
            final(self).sdf_baker_resources == old(self).sdf_baker_resources,
            final(self).udf_baker_resources == old(self).udf_baker_resources,
            final(self).scene == old(self).scene,
            final(self).num_of_meshes == old(self).num_of_meshes,
            final(self).settings == old(self).settings,
    {
        self.is_rotating_camera = false;
    }

    /// Whether the pointer turns the camera.
    pub fn is_rotating_camera(&self) -> (rotating: bool)
        ensures
            rotating == self.is_rotating_camera,
    {
        self.is_rotating_camera
    }

    /// The voxel grid for the desired box of the settings at their
    /// resolution.
    pub fn estimate_grid_size(&self) -> (dimensions: [u32; 3])
        ensures
            dimensions@ == spec_grid_size(self.settings.desired_size@, self.settings.max_resolution),
            forall|i: int| 0 <= i < 3 ==> #[trigger] dimensions@[i] >= 1,
            self.settings.max_resolution >= 1 ==> forall|i: int|
                0 <= i < 3 ==> #[trigger] dimensions@[i] <= self.settings.max_resolution,
    {
        estimate_grid_size(&self.settings.desired_size, self.settings.max_resolution)
    }

    /// Snaps the box to the grid: the voxel counts, and the voxel edge that
    /// makes the reference axis exactly as long as the desired box. The
    /// length of the snapped box along an axis is its voxel count times that
    /// edge.
    pub fn snap_box_to_bounds(&self) -> (snapped: SnappedBox)
        ensures
            snapped.dimensions@ == spec_grid_size(
                self.settings.desired_size@,
                self.settings.max_resolution,
            ),
            snapped.reference == spec_reference_axis(self.settings.desired_size@),
            snapped.voxel_size_numerator == spec_max_extent(self.settings.desired_size@),
            snapped.voxel_size_denominator == snapped.dimensions@[snapped.reference.spec_index()],
            snapped.voxel_size_denominator >= 1,
    {
        let dimensions = estimate_grid_size(&self.settings.desired_size, self.settings.max_resolution);
        let reference = reference_axis(&self.settings.desired_size);
        SnappedBox {
            dimensions,
            reference,
            voxel_size_numerator: max_extent(&self.settings.desired_size),
            voxel_size_denominator: dimensions[reference.index()],
        }
    }

    /// Looks up the primitive the settings select.
    pub fn get_selected_mesh_primitive(&self) -> (r: Result<SelectedPrimitive, BakeError>)
        ensures
            match r {
                Ok(selected) => self.spec_selected() == Ok::<(int, int), BakeError>(
                    (selected.mesh as int, selected.primitive as int),
                ) && selected.mesh < self.scene->0.meshes@.len() && selected.primitive
                    < self.scene->0.meshes@[selected.mesh as int].primitives@.len()
                    && selected.index_count
                    == self.scene->0.meshes@[selected.mesh as int].primitives@[selected.primitive as int].index_count,
                Err(e) => self.spec_selected() == Err::<(int, int), BakeError>(e),
            },
    {
        match &self.scene {
            None => Err(BakeError::SceneMissing),
            Some(scene) => match scene.locate(self.settings.selected_mesh_index) {
                None => Err(BakeError::MeshMissing),
                Some(selected) => Ok(selected),
            },
        }
    }
}

} // verus!
