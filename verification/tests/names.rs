use hala_sdf_baker::commands::Projection;
use hala_sdf_baker::programs::{ComputeProgram, DescriptorSet, GraphicsProgram};

#[test]
fn kernels_are_named_as_they_are_configured() {
    assert_eq!(ComputeProgram::Init.name(), "init");
    assert_eq!(ComputeProgram::GenTriInUvw.name(), "gen_tri_in_uvw");
    assert_eq!(ComputeProgram::CalTriDir.name(), "cal_tri_dir");
    assert_eq!(ComputeProgram::ConservativeRasterization.name(), "conservative_rasterization");
    assert_eq!(ComputeProgram::ToBlockSumBuffer.name(), "to_block_sum_buffer");
    assert_eq!(ComputeProgram::GenerateRayMapLocal2x2.name(), "generate_ray_map_local2x2");
    assert_eq!(ComputeProgram::SignPass6Rays.name(), "sign_pass_6rays");
    assert_eq!(ComputeProgram::Buffer2Image.name(), "buffer_2_image");
    assert_eq!(ComputeProgram::DistanceTransformWinding.name(), "distance_transform_winding");
    assert_eq!(ComputeProgram::SplatTriangleDistance.name(), "splat_triangle_distance");
    assert_eq!(GraphicsProgram::WriteUvwAndCoverage.name(), "write_uvw_and_coverage");
    assert_eq!(GraphicsProgram::WriteTriangleIdsToVoxels.name(), "write_triangle_ids_to_voxels");
}

#[test]
fn second_sets_are_named_after_their_kernel() {
    for program in [
        ComputeProgram::InBucketSum,
        ComputeProgram::BlockSum,
        ComputeProgram::FinalSum,
        ComputeProgram::SignPassNeighbors,
        ComputeProgram::Jfa,
    ] {
        let second = program.second_descriptor_set().unwrap();
        assert_eq!(second.name(), format!("{}_2", program.name()));
        assert_eq!(program.descriptor_set().name(), program.name());
    }
    assert_eq!(ComputeProgram::Init.second_descriptor_set(), None);
    assert_eq!(ComputeProgram::UdfFinal.second_descriptor_set(), None);
    assert_eq!(DescriptorSet::Jfa2.name(), "jfa_2");
}

#[test]
fn sets_of_the_rasterizing_programs() {
    assert_eq!(GraphicsProgram::WriteUvwAndCoverage.descriptor_set(), DescriptorSet::WriteUvwAndCoverage);
    assert_eq!(
        GraphicsProgram::WriteTriangleIdsToVoxels.descriptor_set().name(),
        "write_triangle_ids_to_voxels"
    );
}

#[test]
fn views_are_numbered() {
    assert_eq!(Projection::XY.index(), 0);
    assert_eq!(Projection::ZX.index(), 1);
    assert_eq!(Projection::YZ.index(), 2);
}
