use hala_sdf_baker::bake::{
    check_triangle_capacity, upper_bound_count, validate_triangle_capacity, voxel_count,
    CapacityReport,
};
use hala_sdf_baker::baker::{Mesh, Primitive, SDFBaker, Scene, SelectedPrimitive};
use hala_sdf_baker::commands::{Buffer, Command, Image, Projection, Resource};
use hala_sdf_baker::config::{BakerConfig, ComputeProgramDesc, GraphicsProgramDesc};
use hala_sdf_baker::error::BakeError;
use hala_sdf_baker::grid::{Axis, SIZE_UNIT};
use hala_sdf_baker::programs::{ComputeProgram, DescriptorSet, GraphicsProgram};
use hala_sdf_baker::resources::{Extent, Requirement};
use hala_sdf_baker::settings::SDFBakerSettings;

const ALL_SDF_PROGRAMS: [ComputeProgram; 18] = [
    ComputeProgram::Init,
    ComputeProgram::GenTriInUvw,
    ComputeProgram::CalTriDir,
    ComputeProgram::ConservativeRasterization,
    ComputeProgram::InBucketSum,
    ComputeProgram::BlockSum,
    ComputeProgram::FinalSum,
    ComputeProgram::ToBlockSumBuffer,
    ComputeProgram::GenerateRayMapLocal2x2,
    ComputeProgram::RayMapSumX,
    ComputeProgram::RayMapSumY,
    ComputeProgram::RayMapSumZ,
    ComputeProgram::SignPass6Rays,
    ComputeProgram::SignPassNeighbors,
    ComputeProgram::InOutEdge,
    ComputeProgram::Buffer2Image,
    ComputeProgram::Jfa,
    ComputeProgram::DistanceTransformWinding,
];

fn signed_config(missing: &[ComputeProgram], unbound: &[ComputeProgram]) -> BakerConfig {
    BakerConfig {
        compute_programs: ALL_SDF_PROGRAMS
            .iter()
            .filter(|p| !missing.contains(p))
            .map(|p| ComputeProgramDesc { program: *p, bindings: if unbound.contains(p) { 0 } else { 3 } })
            .collect(),
        graphics_programs: vec![
            GraphicsProgramDesc { program: GraphicsProgram::WriteUvwAndCoverage, bindings: 5 },
            GraphicsProgramDesc { program: GraphicsProgram::WriteTriangleIdsToVoxels, bindings: 5 },
        ],
    }
}

fn unsigned_config() -> BakerConfig {
    BakerConfig {
        compute_programs: vec![
            ComputeProgramDesc { program: ComputeProgram::UdfInit, bindings: 1 },
            ComputeProgramDesc { program: ComputeProgram::UdfFinal, bindings: 1 },
            ComputeProgramDesc { program: ComputeProgram::SplatTriangleDistance, bindings: 4 },
        ],
        graphics_programs: vec![],
    }
}

fn cube_scene() -> Scene {
    Scene { meshes: vec![Mesh { primitives: vec![Primitive { index_count: 36 }] }] }
}

fn cube_baker() -> SDFBaker {
    let mut baker = SDFBaker::new(&signed_config(&[], &[]), &unsigned_config()).unwrap();
    baker.set_scene(cube_scene());
    baker.settings.max_resolution = 32;
    baker.settings.desired_size = [2 * SIZE_UNIT, 2 * SIZE_UNIT, 2 * SIZE_UNIT];
    baker
}

#[test]
fn default_settings() {
    let settings = SDFBakerSettings::default();
    assert!(settings.is_sdf);
    assert!(settings.show_desired_box && settings.show_actual_box);
    assert!(settings.show_wireframe && settings.show_sdf);
    assert!(!settings.show_render_targets && !settings.show_ray_map);
    assert_eq!(settings.selected_mesh_index, 0);
    assert_eq!(settings.max_resolution, 64);
    assert_eq!(settings.desired_size, [SIZE_UNIT; 3]);
    assert_eq!(settings.sign_passes_count, 1);
    assert!(settings.is_valid());
    let mut bad = settings;
    bad.max_resolution = 0;
    assert!(!bad.is_valid());
    bad.max_resolution = 2;
    bad.sign_passes_count = -1;
    assert!(!bad.is_valid());
}

#[test]
fn new_baker_has_nothing_allocated_and_no_scene() {
    let baker = SDFBaker::new(&signed_config(&[], &[]), &unsigned_config()).unwrap();
    assert!(baker.scene.is_none());
    assert_eq!(baker.get_num_of_meshes(), 0);
    assert!(!baker.is_rotating_camera());
    assert_eq!(baker.sdf_baker_resources.cache.buffer(Buffer::Voxels), None);
    assert_eq!(baker.sdf_baker_resources.cache.image(Image::RenderTarget(Projection::ZX)), None);
    assert_eq!(baker.sdf_baker_resources.num_of_triangles, 0);
    for program in ALL_SDF_PROGRAMS {
        assert!(baker.sdf_baker_resources.inventory.contains_program(program));
        assert!(baker.sdf_baker_resources.inventory.contains_descriptor_set(program.descriptor_set()));
        assert!(!baker.udf_baker_resources.inventory.contains_program(program));
    }
    for set in [
        DescriptorSet::InBucketSum2,
        DescriptorSet::BlockSum2,
        DescriptorSet::FinalSum2,
        DescriptorSet::SignPassNeighbors2,
        DescriptorSet::Jfa2,
        DescriptorSet::WriteUvwAndCoverage,
        DescriptorSet::WriteTriangleIdsToVoxels,
    ] {
        assert!(baker.sdf_baker_resources.inventory.contains_descriptor_set(set));
    }
    assert!(baker.udf_baker_resources.inventory.contains_program(ComputeProgram::UdfInit));
    assert!(!baker.udf_baker_resources.inventory.contains_descriptor_set(DescriptorSet::Jfa));
}

#[test]
fn kernel_without_bindings_gets_no_parameter_set() {
    let config = signed_config(&[], &[ComputeProgram::Jfa, ComputeProgram::Init]);
    let baker = SDFBaker::new(&config, &unsigned_config()).unwrap();
    let inventory = &baker.sdf_baker_resources.inventory;
    assert!(inventory.contains_program(ComputeProgram::Jfa));
    assert!(!inventory.contains_descriptor_set(DescriptorSet::Jfa));
    assert!(!inventory.contains_descriptor_set(DescriptorSet::Jfa2));
    assert!(!inventory.contains_descriptor_set(DescriptorSet::Init));
    assert!(inventory.contains_descriptor_set(DescriptorSet::BlockSum2));
}

#[test]
fn baker_is_not_made_without_its_ping_pong_kernels() {
    for (missing, first) in [
        (vec![ComputeProgram::Jfa], ComputeProgram::Jfa),
        (vec![ComputeProgram::Jfa, ComputeProgram::BlockSum], ComputeProgram::BlockSum),
        (vec![ComputeProgram::SignPassNeighbors, ComputeProgram::InBucketSum], ComputeProgram::InBucketSum),
        (vec![ComputeProgram::FinalSum], ComputeProgram::FinalSum),
    ] {
        assert_eq!(
            SDFBaker::new(&signed_config(&missing, &[]), &unsigned_config()),
            Err(BakeError::ProgramMissing(first))
        );
    }
    let mut config = signed_config(&[], &[]);
    config.graphics_programs.remove(0);
    assert_eq!(
        SDFBaker::new(&config, &unsigned_config()),
        Err(BakeError::GraphicsProgramMissing(GraphicsProgram::WriteUvwAndCoverage))
    );
    config.graphics_programs.clear();
    config.graphics_programs.push(GraphicsProgramDesc {
        program: GraphicsProgram::WriteUvwAndCoverage,
        bindings: 0,
    });
    assert_eq!(
        SDFBaker::new(&config, &unsigned_config()),
        Err(BakeError::GraphicsProgramMissing(GraphicsProgram::WriteTriangleIdsToVoxels))
    );
    // kernels that do not run in ping-pong are missed only when a bake needs them
    assert!(SDFBaker::new(&signed_config(&[ComputeProgram::Init], &[]), &unsigned_config()).is_ok());
}

#[test]
fn meshes_are_counted_by_their_primitives() {
    let mut baker = cube_baker();
    assert_eq!(baker.get_num_of_meshes(), 1);
    baker.set_scene(Scene {
        meshes: vec![
            Mesh { primitives: vec![Primitive { index_count: 3 }, Primitive { index_count: 6 }] },
            Mesh { primitives: vec![] },
            Mesh { primitives: vec![Primitive { index_count: 9 }] },
        ],
    });
    assert_eq!(baker.get_num_of_meshes(), 4);
    baker.settings.selected_mesh_index = 0;
    assert_eq!(
        baker.get_selected_mesh_primitive(),
        Ok(SelectedPrimitive { mesh: 0, primitive: 0, index_count: 3 })
    );
    baker.settings.selected_mesh_index = 1;
    assert_eq!(
        baker.get_selected_mesh_primitive(),
        Ok(SelectedPrimitive { mesh: 0, primitive: 1, index_count: 6 })
    );
    baker.settings.selected_mesh_index = 2;
    assert_eq!(
        baker.get_selected_mesh_primitive(),
        Ok(SelectedPrimitive { mesh: 2, primitive: 0, index_count: 9 })
    );
    baker.settings.selected_mesh_index = 3;
    assert_eq!(baker.get_selected_mesh_primitive(), Err(BakeError::MeshMissing));
    baker.settings.selected_mesh_index = -1;
    assert_eq!(baker.get_selected_mesh_primitive(), Err(BakeError::MeshMissing));
    baker.scene = None;
    assert_eq!(baker.get_selected_mesh_primitive(), Err(BakeError::SceneMissing));
}

#[test]
fn camera_turns_between_begin_and_end() {
    let mut baker = cube_baker();
    baker.begin_rotate_camera();
    assert!(baker.is_rotating_camera());
    baker.end_rotate_camera();
    assert!(!baker.is_rotating_camera());
}

#[test]
fn box_snaps_to_whole_voxels() {
    let mut baker = cube_baker();
    baker.settings.max_resolution = 64;
    baker.settings.desired_size = [SIZE_UNIT, 3 * SIZE_UNIT, SIZE_UNIT / 2];
    assert_eq!(baker.estimate_grid_size(), [22, 64, 11]);
    let snapped = baker.snap_box_to_bounds();
    assert_eq!(snapped.dimensions, [22, 64, 11]);
    assert_eq!(snapped.reference, Axis::Y);
    assert_eq!(snapped.voxel_size_numerator, 3 * SIZE_UNIT);
    assert_eq!(snapped.voxel_size_denominator, 64);
    // every axis of the snapped box covers the desired one
    for axis in 0..3 {
        let snapped_length = snapped.dimensions[axis] as u64 * snapped.voxel_size_numerator;
        let desired_length = baker.settings.desired_size[axis] * snapped.voxel_size_denominator as u64;
        assert!(snapped_length >= desired_length);
    }
}

#[test]
fn room_of_the_triangle_list_is_kept_within_its_limits() {
    assert_eq!(upper_bound_count(0), 1024);
    assert_eq!(upper_bound_count(1023), 1024);
    assert_eq!(upper_bound_count(1024), 1024);
    assert_eq!(upper_bound_count(56756), 56756);
    assert_eq!(upper_bound_count(1536 * (1 << 18)), 1536 * (1 << 18));
    assert_eq!(upper_bound_count(1536 * (1 << 18) + 1), 1536 * (1 << 18));
    assert_eq!(upper_bound_count(u64::MAX), 402653184);
}

#[test]
fn voxels_are_counted_where_they_fit() {
    assert_eq!(voxel_count(&[32, 32, 32]), Some(32768));
    assert_eq!(voxel_count(&[1, 1, 1]), Some(1));
    assert_eq!(voxel_count(&[0, 9, 9]), Some(0));
    assert_eq!(voxel_count(&[65535, 65537, 1]), Some(u32::MAX));
    assert_eq!(voxel_count(&[65536, 65536, 1]), None);
    assert_eq!(voxel_count(&[u32::MAX, u32::MAX, u32::MAX]), None);
}

#[test]
fn tiny_triangle_list_is_reported_as_overflowing() {
    let counts = vec![700, 800, 1000, 24];
    let accum = vec![0, 700, 1500, 2500];
    let report = validate_triangle_capacity(&accum, &counts, 4, 1024);
    assert_eq!(report, CapacityReport { last_counter: 2524, upper_bound_count: 1024, overflow: true });
    assert!(report.last_counter > report.upper_bound_count as u64);
    let fits = validate_triangle_capacity(&accum, &counts, 1, 1024);
    assert_eq!(fits, CapacityReport { last_counter: 700, upper_bound_count: 1024, overflow: false });
    let exact = validate_triangle_capacity(&accum, &counts, 2, 1500);
    assert_eq!(exact, CapacityReport { last_counter: 1500, upper_bound_count: 1500, overflow: false });
    let one_more = validate_triangle_capacity(&accum, &counts, 2, 1499);
    assert!(one_more.overflow);
    assert_eq!(check_triangle_capacity(&accum, &counts, 4, 1024), Some(report));
    assert_eq!(check_triangle_capacity(&accum, &counts, 5, 1024), None);
    assert_eq!(check_triangle_capacity(&accum, &counts, 0, 1024), None);
    assert_eq!(check_triangle_capacity(&accum, &vec![700, 800], 3, 1024), None);
}

#[test]
fn run_of_the_last_voxel_counts_for_the_room() {
    // The last run starts at 0 and is too long by itself.
    let report = validate_triangle_capacity(&vec![0, 0], &vec![0, 2000], 2, 1024);
    assert_eq!(report, CapacityReport { last_counter: 2000, upper_bound_count: 1024, overflow: true });
    // The total is formed without wrapping.
    let large = validate_triangle_capacity(&vec![u32::MAX], &vec![u32::MAX], 1, u32::MAX);
    assert_eq!(large.last_counter, 2 * (u32::MAX as u64));
    assert!(large.overflow);
}

#[test]
fn signed_bake_of_a_cube() {
    let mut baker = cube_baker();
    let bake = baker.bake_sdf(56756).unwrap();
    assert_eq!(bake.primitive, SelectedPrimitive { mesh: 0, primitive: 0, index_count: 36 });
    assert_eq!(bake.num_of_triangles, 12);
    assert_eq!(bake.dimensions, [32, 32, 32]);
    assert_eq!(bake.num_of_voxels, 32768);
    assert_eq!(bake.upper_bound_count, 56756);
    assert_eq!(bake.num_of_jfa_passes, 5);
    assert_eq!(bake.sign_map, Image::SignMapBis);
    assert_eq!(bake.voxels_texture, Image::VoxelsTexture);
    // everything is allocated the first time
    assert_eq!(bake.allocations.len(), 5 + 9 + 8 + 1 + 2 + 2 + 1);
    assert_eq!(bake.allocations[0], Requirement::Buffer { buffer: Buffer::TriangleUvw, size: 12 * 48 });
    assert_eq!(bake.allocations[4], Requirement::Buffer { buffer: Buffer::TrianglesInVoxels, size: 56756 * 4 });
    assert_eq!(
        bake.allocations[5],
        Requirement::Image {
            image: Image::RenderTarget(Projection::XY),
            extent: Extent { width: 32, height: 32, depth: 1 },
        }
    );
    assert_eq!(bake.allocations[14], Requirement::Buffer { buffer: Buffer::Voxels, size: 32768 * 16 });
    assert_eq!(bake.allocations[16], Requirement::Buffer { buffer: Buffer::InSumBlocks, size: 64 * 4 });
    assert_eq!(bake.allocations[21], Requirement::Buffer { buffer: Buffer::AdditionalSumBlocks, size: 4 });
    assert_eq!(
        bake.allocations[27],
        Requirement::Image {
            image: Image::DistanceTexture,
            extent: Extent { width: 32, height: 32, depth: 32 },
        }
    );
    assert_eq!(bake.bindings.len(), 8 + 25 + 21 + 7 + 8 + 8 + 7);
    // the stages after the sign resolver read the map its last pass wrote
    let closing = bake.bindings.iter().find(|b| b.set == DescriptorSet::InOutEdge && b.binding == 0).unwrap();
    assert_eq!(closing.resource, Resource::Image(Image::SignMapBis));
    let distance: Vec<_> =
        bake.bindings.iter().filter(|b| b.set == DescriptorSet::DistanceTransformWinding).collect();
    assert_eq!(distance[3].resource, Resource::Image(Image::SignMapBis));
    assert_eq!(distance[4].resource, Resource::Image(Image::VoxelsTexture));
    // clear, geometry, count, scan, scatter, rays, signs, closing, distances
    assert_eq!(bake.commands.len(), 3 + 13 + 24 + 12 + 23 + 35 + 7 + 32 + 5);
    assert_eq!(baker.sdf_baker_resources.num_of_triangles, 12);
    assert_eq!(baker.sdf_baker_resources.cache.buffer(Buffer::Counters), Some(32768 * 4));
    assert_eq!(
        baker.sdf_baker_resources.cache.pipeline(GraphicsProgram::WriteUvwAndCoverage, Projection::YZ),
        Some(Extent { width: 32, height: 32, depth: 1 })
    );
}

#[test]
fn stages_of_a_signed_bake_come_in_order() {
    let mut baker = cube_baker();
    let bake = baker.bake_sdf(56756).unwrap();
    let programs: Vec<ComputeProgram> = bake
        .commands
        .commands
        .iter()
        .filter_map(|c| match c {
            Command::BindCompute { program, .. } => Some(*program),
            _ => None,
        })
        .collect();
    let mut order = programs.clone();
    order.dedup();
    assert_eq!(
        order,
        vec![
            ComputeProgram::Init,
            ComputeProgram::GenTriInUvw,
            ComputeProgram::CalTriDir,
            ComputeProgram::ConservativeRasterization,
            ComputeProgram::InBucketSum,
            ComputeProgram::BlockSum,
            ComputeProgram::FinalSum,
            ComputeProgram::GenerateRayMapLocal2x2,
            ComputeProgram::RayMapSumX,
            ComputeProgram::RayMapSumY,
            ComputeProgram::RayMapSumZ,
            ComputeProgram::SignPass6Rays,
            ComputeProgram::SignPassNeighbors,
            ComputeProgram::InOutEdge,
            ComputeProgram::Buffer2Image,
            ComputeProgram::Jfa,
            ComputeProgram::DistanceTransformWinding,
        ]
    );
    let pipelines: Vec<GraphicsProgram> = bake
        .commands
        .commands
        .iter()
        .filter_map(|c| match c {
            Command::BindGraphics { pipeline, .. } => Some(*pipeline),
            _ => None,
        })
        .collect();
    assert_eq!(
        pipelines,
        vec![
            GraphicsProgram::WriteUvwAndCoverage,
            GraphicsProgram::WriteUvwAndCoverage,
            GraphicsProgram::WriteUvwAndCoverage,
            GraphicsProgram::WriteTriangleIdsToVoxels,
            GraphicsProgram::WriteTriangleIdsToVoxels,
            GraphicsProgram::WriteTriangleIdsToVoxels,
        ]
    );
    // the scan lies between the two draw passes
    let position = |wanted: &dyn Fn(&Command) -> bool| {
        bake.commands.commands.iter().position(|c| wanted(c)).unwrap()
    };
    let count = position(&|c| matches!(c, Command::BindGraphics { pipeline: GraphicsProgram::WriteUvwAndCoverage, .. }));
    let scan = position(&|c| matches!(c, Command::BindCompute { program: ComputeProgram::InBucketSum, .. }));
    let scatter =
        position(&|c| matches!(c, Command::BindGraphics { pipeline: GraphicsProgram::WriteTriangleIdsToVoxels, .. }));
    assert!(count < scan && scan < scatter);
}

#[test]
fn second_bake_allocates_only_what_changed() {
    let mut baker = cube_baker();
    baker.bake_sdf(56756).unwrap();
    let again = baker.bake_sdf(56756).unwrap();
    assert!(again.allocations.is_empty());
    let roomier = baker.bake_sdf(60000).unwrap();
    assert_eq!(
        roomier.allocations,
        vec![Requirement::Buffer { buffer: Buffer::TrianglesInVoxels, size: 240000 }]
    );
    baker.settings.desired_size = [2 * SIZE_UNIT, SIZE_UNIT, 2 * SIZE_UNIT];
    let flatter = baker.bake_sdf(60000).unwrap();
    assert_eq!(flatter.dimensions, [32, 16, 32]);
    let roles: Vec<String> = flatter.allocations.iter().map(|r| format!("{:?}", r)).collect();
    // the per-triangle buffers stay; the view along Y keeps its target
    assert!(roles.iter().all(|r| !r.contains("TriangleUvw") && !r.contains("Vertices")));
    assert!(roles.iter().all(|r| !r.contains("ZX")));
    assert_eq!(flatter.allocations.len(), 6 + 7 + 1 + 2 + 2 + 1);
    assert_eq!(
        flatter.allocations[0],
        Requirement::Image {
            image: Image::RenderTarget(Projection::XY),
            extent: Extent { width: 32, height: 16, depth: 1 },
        }
    );
    // an allocation that failed is asked for again
    baker.sdf_baker_resources.cache.release(flatter.allocations[0]);
    let repaired = baker.bake_sdf(60000).unwrap();
    assert_eq!(repaired.allocations, vec![flatter.allocations[0]]);
}

#[test]
fn triangle_count_is_noted_when_the_vertices_buffer_is_made() {
    let mut baker = cube_baker();
    baker.bake_sdf(56756).unwrap();
    baker.set_scene(Scene { meshes: vec![Mesh { primitives: vec![Primitive { index_count: 3000 }] }] });
    baker.bake_sdf(56756).unwrap();
    assert_eq!(baker.sdf_baker_resources.num_of_triangles, 1000);
    assert_eq!(baker.sdf_baker_resources.cache.buffer(Buffer::Vertices), Some(48000));
}

#[test]
fn signed_bake_fails_with_the_first_thing_that_is_missing() {
    let mut no_scene = SDFBaker::new(&signed_config(&[], &[]), &unsigned_config()).unwrap();
    assert_eq!(no_scene.bake_sdf(0), Err(BakeError::SceneMissing));

    let mut no_mesh = cube_baker();
    no_mesh.settings.selected_mesh_index = 1;
    assert_eq!(no_mesh.bake_sdf(0), Err(BakeError::MeshMissing));

    let config = signed_config(&[ComputeProgram::RayMapSumY, ComputeProgram::Init], &[]);
    let mut baker = SDFBaker::new(&config, &unsigned_config()).unwrap();
    baker.set_scene(cube_scene());
    let before = baker.clone();
    // parameter sets are looked up before kernels
    assert_eq!(baker.bake_sdf(0), Err(BakeError::DescriptorSetMissing(DescriptorSet::Init)));
    assert_eq!(baker, before);

    let config = signed_config(&[], &[ComputeProgram::RayMapSumY, ComputeProgram::DistanceTransformWinding]);
    let mut baker = SDFBaker::new(&config, &unsigned_config()).unwrap();
    baker.set_scene(cube_scene());
    assert_eq!(baker.bake_sdf(0), Err(BakeError::DescriptorSetMissing(DescriptorSet::RayMapSumY)));

    let mut baker = cube_baker();
    baker.sdf_baker_resources.inventory.compute_programs.retain(|p| {
        *p != ComputeProgram::Jfa && *p != ComputeProgram::CalTriDir
    });
    let before = baker.clone();
    assert_eq!(baker.bake_sdf(0), Err(BakeError::ProgramMissing(ComputeProgram::CalTriDir)));
    assert_eq!(baker, before);
    assert_eq!(baker.sdf_baker_resources.cache.buffer(Buffer::Voxels), None);
}

#[test]
fn unsigned_bake_of_a_cube() {
    let mut baker = cube_baker();
    let bake = baker.bake_udf().unwrap();
    assert_eq!(bake.num_of_triangles, 12);
    assert_eq!(bake.dimensions, [32, 32, 32]);
    assert_eq!(bake.num_of_voxels, 32768);
    assert_eq!(
        bake.allocations,
        vec![
            Requirement::Image {
                image: Image::DistanceTexture,
                extent: Extent { width: 32, height: 32, depth: 32 },
            },
            Requirement::Buffer { buffer: Buffer::JumpBuffer, size: 131072 },
            Requirement::Buffer { buffer: Buffer::JumpBufferBis, size: 131072 },
        ]
    );
    assert_eq!(bake.bindings.len(), 6);
    assert_eq!(bake.commands.len(), 9);
    let sizes: Vec<(u32, u32, u32)> = bake
        .commands
        .commands
        .iter()
        .filter_map(|c| match c {
            Command::Dispatch { x, y, z } => Some((*x, *y, *z)),
            _ => None,
        })
        .collect();
    assert_eq!(sizes, vec![(4, 4, 4), (1, 1, 1), (4, 4, 4)]);
    // the signed pipeline is not touched
    assert_eq!(baker.sdf_baker_resources.cache.buffer(Buffer::Voxels), None);
    assert!(baker.bake_udf().unwrap().allocations.is_empty());
}

#[test]
fn unsigned_bake_fails_with_the_first_thing_that_is_missing() {
    let mut baker = cube_baker();
    baker.scene = None;
    assert_eq!(baker.bake_udf(), Err(BakeError::SceneMissing));
    let empty = BakerConfig { compute_programs: vec![], graphics_programs: vec![] };
    let mut baker = SDFBaker::new(&signed_config(&[], &[]), &empty).unwrap();
    baker.set_scene(cube_scene());
    assert_eq!(baker.bake_udf(), Err(BakeError::DescriptorSetMissing(DescriptorSet::UdfInit)));
    let mut baker = cube_baker();
    baker.udf_baker_resources.inventory.compute_programs.retain(|p| *p == ComputeProgram::UdfInit);
    assert_eq!(baker.bake_udf(), Err(BakeError::ProgramMissing(ComputeProgram::SplatTriangleDistance)));
    assert_eq!(baker.udf_baker_resources.cache.image(Image::DistanceTexture), None);
}
