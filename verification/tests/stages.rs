use hala_sdf_baker::bake::build_geometry::target_extent;
use hala_sdf_baker::bake::find_sign::{
    normalize_factor, read_sign_map, threshold_scale, write_sign_map,
};
use hala_sdf_baker::bake::prefix_sum::get_prefix_sum_dispatch_size;
use hala_sdf_baker::bake::surface_closing::{read_voxels_texture, write_voxels_texture};
use hala_sdf_baker::bake::{floor_log2, group_count, power_of_two};
use hala_sdf_baker::baker::SDFBaker;
use hala_sdf_baker::commands::{
    Binding, BindingKind, Buffer, BufferBarrier, Command, CommandList, Hazard, Image, ImageBarrier,
    ImageLayout, Projection, PushValue, Resource,
};
use hala_sdf_baker::config::{BakerConfig, ComputeProgramDesc, GraphicsProgramDesc};
use hala_sdf_baker::error::BakeError;
use hala_sdf_baker::programs::{ComputeProgram, DescriptorSet, GraphicsProgram};
use hala_sdf_baker::resources::Extent;

const SDF_PROGRAMS: [ComputeProgram; 18] = [
    ComputeProgram::Init,
    ComputeProgram::GenTriInUvw,
    ComputeProgram::CalTriDir,
    ComputeProgram::ConservativeRasterization,
    ComputeProgram::InBucketSum,
    ComputeProgram::BlockSum,
    ComputeProgram::FinalSum,
    ComputeProgram::ToBlockSumBuffer,
    ComputeProgram::GenerateRayMapLocal2x2,
    ComputeProgram::RayMapSumX,
    ComputeProgram::RayMapSumY,
    ComputeProgram::RayMapSumZ,
    ComputeProgram::SignPass6Rays,
    ComputeProgram::SignPassNeighbors,
    ComputeProgram::InOutEdge,
    ComputeProgram::Buffer2Image,
    ComputeProgram::Jfa,
    ComputeProgram::DistanceTransformWinding,
];

fn sdf_config_without(missing: &[ComputeProgram]) -> BakerConfig {
    BakerConfig {
        compute_programs: SDF_PROGRAMS
            .iter()
            .filter(|p| !missing.contains(p))
            .map(|p| ComputeProgramDesc { program: *p, bindings: 2 })
            .collect(),
        graphics_programs: vec![
            GraphicsProgramDesc { program: GraphicsProgram::WriteUvwAndCoverage, bindings: 5 },
            GraphicsProgramDesc { program: GraphicsProgram::WriteTriangleIdsToVoxels, bindings: 5 },
        ],
    }
}

fn udf_config() -> BakerConfig {
    BakerConfig {
        compute_programs: vec![
            ComputeProgramDesc { program: ComputeProgram::UdfInit, bindings: 1 },
            ComputeProgramDesc { program: ComputeProgram::UdfFinal, bindings: 1 },
            ComputeProgramDesc { program: ComputeProgram::SplatTriangleDistance, bindings: 4 },
        ],
        graphics_programs: vec![],
    }
}

fn stage_baker() -> SDFBaker {
    SDFBaker::new(&sdf_config_without(&[]), &udf_config()).unwrap()
}

fn buffers(list: &[(Buffer, Hazard)]) -> Command {
    Command::BufferBarriers(
        list.iter().map(|(buffer, hazard)| BufferBarrier { buffer: *buffer, hazard: *hazard }).collect(),
    )
}

fn images(list: &[(Image, Hazard)]) -> Command {
    Command::ImageBarriers(
        list.iter()
            .map(|(image, hazard)| ImageBarrier {
                image: *image,
                old_layout: ImageLayout::General,
                new_layout: ImageLayout::General,
                hazard: *hazard,
            })
            .collect(),
    )
}

fn bind(program: ComputeProgram, descriptor_set: DescriptorSet) -> Command {
    Command::BindCompute { program, descriptor_set }
}

fn constants(values: &[u32]) -> Command {
    Command::PushConstants(values.iter().map(|v| PushValue::U32(*v)).collect())
}

fn dispatch(x: u32, y: u32, z: u32) -> Command {
    Command::Dispatch { x, y, z }
}

fn dispatches(list: &CommandList) -> Vec<(u32, u32, u32)> {
    list.commands
        .iter()
        .filter_map(|c| match c {
            Command::Dispatch { x, y, z } => Some((*x, *y, *z)),
            _ => None,
        })
        .collect()
}

#[test]
fn thread_groups_cover_the_items() {
    assert_eq!(group_count(0, 8), 0);
    assert_eq!(group_count(1, 8), 1);
    assert_eq!(group_count(8, 8), 1);
    assert_eq!(group_count(9, 8), 2);
    assert_eq!(group_count(u32::MAX, 4), 1 << 30);
    assert_eq!(group_count(u32::MAX, 1), u32::MAX);
}

#[test]
fn logarithm_and_powers() {
    assert_eq!(floor_log2(1), 0);
    assert_eq!(floor_log2(2), 1);
    assert_eq!(floor_log2(3), 1);
    assert_eq!(floor_log2(64), 6);
    assert_eq!(floor_log2(1000), 9);
    assert_eq!(floor_log2(1024), 10);
    assert_eq!(floor_log2(i32::MAX), 30);
    assert_eq!(power_of_two(0), 1);
    assert_eq!(power_of_two(5), 32);
    assert_eq!(power_of_two(31), 1 << 31);
}

#[test]
fn scan_dispatch_stays_within_the_limit_per_dimension() {
    assert_eq!(get_prefix_sum_dispatch_size(0), (0, 1));
    assert_eq!(get_prefix_sum_dispatch_size(1), (1, 1));
    assert_eq!(get_prefix_sum_dispatch_size(32768), (64, 1));
    assert_eq!(get_prefix_sum_dispatch_size(512 * 65534), (65534, 1));
    // 65535 groups take two rows
    assert_eq!(get_prefix_sum_dispatch_size(512 * 65535), (32767, 2));
    assert_eq!(get_prefix_sum_dispatch_size(u32::MAX), (8388608 / 129, 129));
}

#[test]
fn scan_over_few_blocks_is_recorded_in_one_level() {
    let commands = stage_baker().prefix_sum_compute(32768).unwrap();
    let expected = vec![
        buffers(&[
            (Buffer::Voxels, Hazard::WriteThenRead),
            (Buffer::Counters, Hazard::WriteThenRead),
            (Buffer::Tmp, Hazard::Execution),
        ]),
        bind(ComputeProgram::InBucketSum, DescriptorSet::InBucketSum),
        constants(&[64, 32768, 0]),
        dispatch(64, 1, 1),
        buffers(&[
            (Buffer::Tmp, Hazard::WriteThenRead),
            (Buffer::AccumSumBlocks, Hazard::Execution),
            (Buffer::SumBlocks, Hazard::Execution),
            (Buffer::InSumBlocks, Hazard::Execution),
            (Buffer::AdditionalSumBlocks, Hazard::Execution),
        ]),
        bind(ComputeProgram::BlockSum, DescriptorSet::BlockSum),
        constants(&[0, 32768, 0]),
        dispatch(1, 1, 1),
        buffers(&[
            (Buffer::AccumSumBlocks, Hazard::WriteThenRead),
            (Buffer::AccumCounters, Hazard::Execution),
        ]),
        bind(ComputeProgram::FinalSum, DescriptorSet::FinalSum),
        constants(&[64, 32768, 0]),
        dispatch(64, 1, 1),
    ];
    assert_eq!(commands.commands, expected);
}

#[test]
fn scan_over_many_blocks_scans_the_block_totals_in_blocks() {
    let n = 512 * 513;
    let commands = stage_baker().prefix_sum_compute(n).unwrap();
    let expected_middle = vec![
        bind(ComputeProgram::ToBlockSumBuffer, DescriptorSet::ToBlockSumBuffer),
        constants(&[0, n, 0]),
        dispatch(2, 1, 1),
        buffers(&[(Buffer::SumBlocks, Hazard::WriteThenRead)]),
        bind(ComputeProgram::InBucketSum, DescriptorSet::InBucketSum2),
        constants(&[513, 513, 0]),
        dispatch(2, 1, 1),
        buffers(&[(Buffer::InSumBlocks, Hazard::WriteThenRead)]),
        bind(ComputeProgram::BlockSum, DescriptorSet::BlockSum2),
        constants(&[0, 513, 0]),
        dispatch(1, 1, 1),
        buffers(&[(Buffer::AdditionalSumBlocks, Hazard::WriteThenRead)]),
        bind(ComputeProgram::FinalSum, DescriptorSet::FinalSum2),
        constants(&[513, 513, 0]),
        dispatch(2, 1, 1),
    ];
    assert_eq!(commands.len(), 5 + 15 + 4);
    assert_eq!(commands.commands[5..20].to_vec(), expected_middle);
    // exactly at the limit one level is enough
    assert_eq!(stage_baker().prefix_sum_compute(512 * 512).unwrap().len(), 12);
}

#[test]
fn scan_stops_at_the_first_kernel_that_is_not_loaded() {
    let without_block_sum =
        SDFBaker::new(&sdf_config_without(&[ComputeProgram::ToBlockSumBuffer]), &udf_config()).unwrap();
    assert!(without_block_sum.prefix_sum_compute(32768).is_ok());
    assert_eq!(
        without_block_sum.prefix_sum_compute(512 * 513),
        Err(BakeError::ProgramMissing(ComputeProgram::ToBlockSumBuffer))
    );
    assert_eq!(
        without_block_sum.prefix_sum_update(),
        Err(BakeError::DescriptorSetMissing(DescriptorSet::ToBlockSumBuffer))
    );
}

#[test]
fn scan_bindings() {
    let bindings = stage_baker().prefix_sum_update().unwrap();
    assert_eq!(bindings.len(), 21);
    assert_eq!(
        bindings[0],
        Binding {
            set: DescriptorSet::InBucketSum,
            binding: 0,
            kind: BindingKind::StorageBuffer,
            resource: Resource::Buffer(Buffer::Counters),
        }
    );
    assert_eq!(
        bindings[20],
        Binding {
            set: DescriptorSet::FinalSum2,
            binding: 3,
            kind: BindingKind::StorageBuffer,
            resource: Resource::Buffer(Buffer::AdditionalSumBlocks),
        }
    );
}

#[test]
fn sign_maps_alternate() {
    assert_eq!(write_sign_map(0), Image::SignMap);
    for pass in 1..10 {
        assert_ne!(read_sign_map(pass), write_sign_map(pass));
        assert_eq!(read_sign_map(pass), write_sign_map(pass - 1));
    }
}

#[test]
fn threshold_is_scaled_only_without_smoothing() {
    assert_eq!(threshold_scale(0), 6);
    assert_eq!(threshold_scale(1), 1);
    assert_eq!(threshold_scale(7), 1);
}

#[test]
fn normalization_factor_grows_by_forty_nine() {
    assert_eq!(normalize_factor(0), Some(6));
    assert_eq!(normalize_factor(1), Some(6));
    assert_eq!(normalize_factor(2), Some(294));
    assert_eq!(normalize_factor(3), Some(14406));
    assert_eq!(normalize_factor(4), Some(705894));
    assert_eq!(normalize_factor(11), Some(6 * 49u64.pow(10)));
    assert_eq!(normalize_factor(12), None);
    assert_eq!(normalize_factor(u32::MAX), None);
}

#[test]
fn only_the_last_smoothing_pass_normalizes() {
    let mut baker = stage_baker();
    baker.settings.sign_passes_count = 3;
    let (commands, sign_map) = baker.find_sign_compute(&[8, 8, 8]).unwrap();
    assert_eq!(sign_map, Image::SignMapBis);
    assert_eq!(commands.len(), 3 + 3 * 4);
    let mut flags = Vec::new();
    for command in &commands.commands {
        if let Command::PushConstants(values) = command {
            assert_eq!(values.len(), 4);
            assert_eq!(values[1], PushValue::U32(8));
            flags.push((values[0], values[2], values[3]));
        }
    }
    assert_eq!(
        flags,
        vec![
            (PushValue::NormalizeFactor { pass: 1 }, PushValue::I32(1), PushValue::U32(0)),
            (PushValue::NormalizeFactor { pass: 2 }, PushValue::I32(2), PushValue::U32(0)),
            (PushValue::NormalizeFactor { pass: 3 }, PushValue::I32(3), PushValue::U32(1)),
        ]
    );
    assert_eq!(
        commands.commands[3],
        images(&[(Image::SignMap, Hazard::WriteThenRead), (Image::SignMapBis, Hazard::Execution)])
    );
    assert_eq!(commands.commands[4], bind(ComputeProgram::SignPassNeighbors, DescriptorSet::SignPassNeighbors2));
    assert_eq!(
        commands.commands[7],
        images(&[(Image::SignMapBis, Hazard::WriteThenRead), (Image::SignMap, Hazard::Execution)])
    );
    assert_eq!(commands.commands[8], bind(ComputeProgram::SignPassNeighbors, DescriptorSet::SignPassNeighbors));
}

#[test]
fn without_smoothing_the_first_vote_stands() {
    let mut baker = stage_baker();
    baker.settings.sign_passes_count = 0;
    let (commands, sign_map) = baker.find_sign_compute(&[9, 4, 1]).unwrap();
    assert_eq!(sign_map, Image::SignMap);
    assert_eq!(
        commands.commands,
        vec![
            images(&[
                (Image::RayMap, Hazard::WriteThenRead),
                (Image::SignMap, Hazard::Execution),
                (Image::SignMapBis, Hazard::Execution),
            ]),
            bind(ComputeProgram::SignPass6Rays, DescriptorSet::SignPass6Rays),
            dispatch(3, 1, 1),
        ]
    );
    let (closing, _) = baker.surface_closing_compute(sign_map, &[9, 4, 1]).unwrap();
    assert_eq!(
        closing.commands[2],
        Command::PushConstants(vec![PushValue::InOutThreshold { scale: 6 }])
    );
    baker.settings.sign_passes_count = 2;
    let (closing, _) = baker.surface_closing_compute(Image::SignMap, &[9, 4, 1]).unwrap();
    assert_eq!(
        closing.commands[2],
        Command::PushConstants(vec![PushValue::InOutThreshold { scale: 1 }])
    );
}

#[test]
fn flood_jumps_halve_down_to_one() {
    let mut baker = stage_baker();
    baker.settings.max_resolution = 64;
    let (commands, voxels_texture) = baker.surface_closing_compute(Image::SignMapBis, &[64, 32, 32]).unwrap();
    assert_eq!(voxels_texture, Image::VoxelsTextureBis);
    assert_eq!(commands.len(), 12 + 6 * 4);
    let jumps: Vec<PushValue> = commands.commands[10..]
        .iter()
        .filter_map(|c| match c {
            Command::PushConstants(values) => Some(values[0]),
            _ => None,
        })
        .collect();
    assert_eq!(
        jumps,
        vec![
            PushValue::I32(1),
            PushValue::U32(32),
            PushValue::U32(16),
            PushValue::U32(8),
            PushValue::U32(4),
            PushValue::U32(2),
            PushValue::U32(1),
        ]
    );
    assert_eq!(dispatches(&commands), vec![(16, 8, 8); 9]);
    assert_eq!(
        commands.commands[0],
        images(&[(Image::SignMapBis, Hazard::WriteThenRead), (Image::VoxelsTexture, Hazard::Execution)])
    );
    // first pass of the halving jumps reads what the pass with jump 1 wrote
    assert_eq!(
        commands.commands[12],
        images(&[
            (Image::VoxelsTextureBis, Hazard::WriteThenRead),
            (Image::VoxelsTexture, Hazard::Execution),
        ])
    );
    assert_eq!(commands.commands[13], bind(ComputeProgram::Jfa, DescriptorSet::Jfa2));
    baker.settings.max_resolution = 1;
    let (commands, voxels_texture) = baker.surface_closing_compute(Image::SignMap, &[1, 1, 1]).unwrap();
    assert_eq!(commands.len(), 12);
    assert_eq!(voxels_texture, Image::VoxelsTextureBis);
    baker.settings.max_resolution = 1000;
    let (commands, voxels_texture) = baker.surface_closing_compute(Image::SignMap, &[1, 1, 1]).unwrap();
    assert_eq!(commands.len(), 12 + 9 * 4);
    assert_eq!(voxels_texture, Image::VoxelsTexture);
}

#[test]
fn voxel_textures_alternate() {
    assert_eq!(write_voxels_texture(0), Image::VoxelsTextureBis);
    for level in 1..12 {
        assert_ne!(read_voxels_texture(level), write_voxels_texture(level));
        assert_eq!(read_voxels_texture(level), write_voxels_texture(level - 1));
    }
}

#[test]
fn ray_map_visits_the_eight_corners() {
    let commands = stage_baker().ray_map_compute(&[33, 16, 8]).unwrap();
    assert_eq!(commands.len(), 2 + 8 * 3 + 9);
    let corners: Vec<Vec<PushValue>> = commands
        .commands
        .iter()
        .filter_map(|c| match c {
            Command::PushConstants(values) => Some(values.clone()),
            _ => None,
        })
        .collect();
    let expected: Vec<Vec<PushValue>> = (0..8u32)
        .map(|i| vec![PushValue::U32(i & 1), PushValue::U32((i & 2) >> 1), PushValue::U32((i & 4) >> 2)])
        .collect();
    assert_eq!(corners, expected);
    let d = dispatches(&commands);
    assert_eq!(d[..8].to_vec(), vec![(3, 1, 1); 8]);
    assert_eq!(d[8..].to_vec(), vec![(1, 2, 1), (5, 1, 1), (5, 2, 1)]);
    assert_eq!(commands.commands[2], images(&[(Image::RayMap, Hazard::WriteThenReadWrite)]));
}

#[test]
fn voxelizer_draws_through_three_views() {
    let dims = [4, 5, 6];
    assert_eq!(target_extent(&dims, Projection::XY), Extent { width: 4, height: 5, depth: 1 });
    assert_eq!(target_extent(&dims, Projection::ZX), Extent { width: 6, height: 4, depth: 1 });
    assert_eq!(target_extent(&dims, Projection::YZ), Extent { width: 5, height: 6, depth: 1 });
    let count = stage_baker().build_geometry_draw_pass_1(12, &dims);
    assert_eq!(count.len(), 2 + 3 * 7 + 1);
    assert_eq!(
        count.commands[2..9].to_vec(),
        vec![
            buffers(&[(Buffer::Voxels, Hazard::Execution), (Buffer::Counters, Hazard::WriteThenRead)]),
            Command::BeginRendering { target: Projection::XY, width: 4, height: 5 },
            Command::SetViewport { width: 4, height: 5 },
            Command::BindGraphics {
                pipeline: GraphicsProgram::WriteUvwAndCoverage,
                projection: Projection::XY,
                descriptor_set: DescriptorSet::WriteUvwAndCoverage,
            },
            constants(&[0]),
            Command::Draw { vertex_count: 36 },
            Command::EndRendering,
        ]
    );
    let scatter = stage_baker().build_geometry_draw_pass_2(12, &dims);
    assert_eq!(scatter.len(), 1 + 3 * 7 + 1);
    assert_eq!(
        scatter.commands[15..22].to_vec(),
        vec![
            buffers(&[
                (Buffer::TrianglesInVoxels, Hazard::Execution),
                (Buffer::AccumCounters, Hazard::WriteThenRead),
            ]),
            Command::BeginRendering { target: Projection::YZ, width: 5, height: 6 },
            Command::SetViewport { width: 5, height: 6 },
            Command::BindGraphics {
                pipeline: GraphicsProgram::WriteTriangleIdsToVoxels,
                projection: Projection::YZ,
                descriptor_set: DescriptorSet::WriteTriangleIdsToVoxels,
            },
            constants(&[2]),
            Command::Draw { vertex_count: 36 },
            Command::EndRendering,
        ]
    );
    let first = &scatter.commands[0];
    match first {
        Command::ImageBarriers(barriers) => {
            assert_eq!(barriers.len(), 3);
            assert_eq!(
                barriers[1],
                ImageBarrier {
                    image: Image::RenderTarget(Projection::ZX),
                    old_layout: ImageLayout::ShaderReadOnly,
                    new_layout: ImageLayout::ColorAttachment,
                    hazard: Hazard::SampledThenAttachment,
                }
            );
        }
        other => panic!("unexpected {:?}", other),
    }
}

#[test]
fn geometry_pass_has_a_thread_per_triangle() {
    let commands = stage_baker().build_geometry_compute(129).unwrap();
    assert_eq!(commands.len(), 13);
    assert_eq!(dispatches(&commands), vec![(3, 1, 1); 5]);
    assert_eq!(commands.commands[7], constants(&[0]));
    assert_eq!(commands.commands[9], constants(&[1]));
    assert_eq!(commands.commands[11], constants(&[2]));
    let none = stage_baker().build_geometry_compute(0).unwrap();
    assert_eq!(dispatches(&none), vec![(0, 1, 1); 5]);
}

#[test]
fn distance_stage_reads_the_results_it_is_given() {
    let mut baker = stage_baker();
    let bindings = baker.dtw_update(Image::SignMapBis, Image::VoxelsTexture).unwrap();
    assert_eq!(bindings[3].resource, Resource::Image(Image::SignMapBis));
    assert_eq!(bindings[4].resource, Resource::Image(Image::VoxelsTexture));
    assert_eq!(bindings[6].kind, BindingKind::StorageImage);
    let commands = baker.dtw_compute(Image::VoxelsTexture, &[17, 8, 1]).unwrap();
    assert_eq!(
        commands.commands,
        vec![
            images(&[
                (Image::VoxelsTexture, Hazard::WriteThenRead),
                (Image::DistanceTexture, Hazard::Execution),
            ]),
            buffers(&[(Buffer::Voxels, Hazard::Execution)]),
            bind(ComputeProgram::DistanceTransformWinding, DescriptorSet::DistanceTransformWinding),
            Command::PushConstants(vec![PushValue::InOutThreshold { scale: 1 }, PushValue::SurfaceOffset]),
            dispatch(3, 1, 1),
        ]
    );
    // without smoothing the distance stage takes the threshold six times, as the edge kernel does
    baker.settings.sign_passes_count = 0;
    let unsmoothed = baker.dtw_compute(Image::VoxelsTexture, &[17, 8, 1]).unwrap();
    assert_eq!(
        unsmoothed.commands[3],
        Command::PushConstants(vec![PushValue::InOutThreshold { scale: 6 }, PushValue::SurfaceOffset])
    );
    baker.settings.sign_passes_count = 5;
    let smoothed = baker.dtw_compute(Image::VoxelsTexture, &[17, 8, 1]).unwrap();
    assert_eq!(
        smoothed.commands[3],
        Command::PushConstants(vec![PushValue::InOutThreshold { scale: 1 }, PushValue::SurfaceOffset])
    );
}

#[test]
fn clearing_stage() {
    let baker = stage_baker();
    assert_eq!(baker.initialize_update().unwrap().len(), 8);
    assert_eq!(
        baker.initialize_compute(&[64, 32, 1]).unwrap().commands,
        vec![
            buffers(&[
                (Buffer::Voxels, Hazard::Execution),
                (Buffer::Counters, Hazard::Execution),
                (Buffer::AccumCounters, Hazard::Execution),
            ]),
            bind(ComputeProgram::Init, DescriptorSet::Init),
            dispatch(8, 4, 1),
        ]
    );
    let bare = SDFBaker::new(&sdf_config_without(&[ComputeProgram::Init]), &udf_config()).unwrap();
    assert_eq!(bare.initialize_update(), Err(BakeError::DescriptorSetMissing(DescriptorSet::Init)));
    assert_eq!(
        bare.initialize_compute(&[1, 1, 1]),
        Err(BakeError::ProgramMissing(ComputeProgram::Init))
    );
}

#[test]
fn unsigned_stages() {
    let baker = stage_baker();
    let discard = |hazard: Hazard| {
        Command::ImageBarriers(vec![ImageBarrier {
            image: Image::DistanceTexture,
            old_layout: ImageLayout::Undefined,
            new_layout: ImageLayout::General,
            hazard,
        }])
    };
    assert_eq!(
        baker.udf_initialize_compute_pass_1(&[16, 16, 16]).unwrap().commands,
        vec![
            discard(Hazard::Execution),
            bind(ComputeProgram::UdfInit, DescriptorSet::UdfInit),
            dispatch(2, 2, 2),
        ]
    );
    assert_eq!(
        baker.splat_triangle_distance_compute(7, 3).unwrap().commands,
        vec![
            discard(Hazard::WriteThenReadWrite),
            bind(ComputeProgram::SplatTriangleDistance, DescriptorSet::SplatTriangleDistance),
            dispatch(7, 3, 1),
        ]
    );
    assert_eq!(
        baker.udf_initialize_compute_pass_2(&[16, 16, 16]).unwrap().commands,
        vec![
            discard(Hazard::WriteThenReadWrite),
            bind(ComputeProgram::UdfFinal, DescriptorSet::UdfFinal),
            dispatch(2, 2, 2),
        ]
    );
    assert_eq!(baker.udf_initialize_update().unwrap().len(), 2);
    assert_eq!(baker.splat_triangle_distance_update().unwrap().len(), 4);
    let bare = SDFBaker::new(&sdf_config_without(&[]), &BakerConfig { compute_programs: vec![], graphics_programs: vec![] }).unwrap();
    assert_eq!(
        bare.udf_initialize_compute_pass_2(&[1, 1, 1]),
        Err(BakeError::ProgramMissing(ComputeProgram::UdfFinal))
    );
    assert_eq!(
        bare.splat_triangle_distance_update(),
        Err(BakeError::DescriptorSetMissing(DescriptorSet::SplatTriangleDistance))
    );
}
