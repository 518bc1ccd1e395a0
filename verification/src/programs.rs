//! The kernels of the baking pipeline and the parameter sets they are bound
//! with, as closed sets of identifiers, each with the name it is configured
//! under.

use vstd::prelude::*;

verus! {

/// A compute kernel of the pipeline.
#[derive(Clone, Copy, Debug, PartialEq, Eq, Structural)]
pub enum ComputeProgram {
    Init,
    GenTriInUvw,
    CalTriDir,
    ConservativeRasterization,
    InBucketSum,
    BlockSum,
    FinalSum,
    ToBlockSumBuffer,
    GenerateRayMapLocal2x2,
    RayMapSumX,
    RayMapSumY,
    RayMapSumZ,
    SignPass6Rays,
    SignPassNeighbors,
    InOutEdge,
    Buffer2Image,
    Jfa,
    DistanceTransformWinding,
    UdfInit,
    UdfFinal,
    SplatTriangleDistance,
}

/// A rasterizing program of the voxelizer; one pipeline of each exists per
/// projection.
#[derive(Clone, Copy, Debug, PartialEq, Eq, Structural)]
pub enum GraphicsProgram {
    WriteUvwAndCoverage,
    WriteTriangleIdsToVoxels,
}

/// A parameter set. Kernels that run in ping-pong have a second set, so that
/// either direction is bound without rewriting a set between passes.
#[derive(Clone, Copy, Debug, PartialEq, Eq, Structural)]
pub enum DescriptorSet {
    Init,
    GenTriInUvw,
    CalTriDir,
    ConservativeRasterization,
    WriteUvwAndCoverage,
    WriteTriangleIdsToVoxels,
    InBucketSum,
    BlockSum,
    FinalSum,
    ToBlockSumBuffer,
    InBucketSum2,
    BlockSum2,
    FinalSum2,
    GenerateRayMapLocal2x2,
    RayMapSumX,
    RayMapSumY,
    RayMapSumZ,
    SignPass6Rays,
    SignPassNeighbors,
    SignPassNeighbors2,
    InOutEdge,
    Buffer2Image,
    Jfa,
    Jfa2,
    DistanceTransformWinding,
    UdfInit,
    UdfFinal,
    SplatTriangleDistance,
}

impl ComputeProgram {
    /// The place of the kernel in the list of all kernels.
    pub open spec fn spec_position(self) -> int {
        match self {
            ComputeProgram::Init => 0,
            ComputeProgram::GenTriInUvw => 1,
            ComputeProgram::CalTriDir => 2,
            ComputeProgram::ConservativeRasterization => 3,
            ComputeProgram::InBucketSum => 4,
            ComputeProgram::BlockSum => 5,
            ComputeProgram::FinalSum => 6,
            ComputeProgram::ToBlockSumBuffer => 7,
            ComputeProgram::GenerateRayMapLocal2x2 => 8,
            ComputeProgram::RayMapSumX => 9,
            ComputeProgram::RayMapSumY => 10,
            ComputeProgram::RayMapSumZ => 11,
            ComputeProgram::SignPass6Rays => 12,
            ComputeProgram::SignPassNeighbors => 13,
            ComputeProgram::InOutEdge => 14,
            ComputeProgram::Buffer2Image => 15,
            ComputeProgram::Jfa => 16,
            ComputeProgram::DistanceTransformWinding => 17,
            ComputeProgram::UdfInit => 18,
            ComputeProgram::UdfFinal => 19,
            ComputeProgram::SplatTriangleDistance => 20,
        }
    }

    /// All kernels, those of the signed pipeline in the order of their
    /// stages, then those of the unsigned one.
    pub fn all() -> (programs: Vec<ComputeProgram>)
        ensures
            programs@.len() == 21,
            forall|program: ComputeProgram|
                programs@[#[trigger] program.spec_position()] == program,
            forall|program: ComputeProgram| programs@.contains(program),
    {
        let programs = vec![
            ComputeProgram::Init,
            ComputeProgram::GenTriInUvw,
            ComputeProgram::CalTriDir,
            ComputeProgram::ConservativeRasterization,
            ComputeProgram::InBucketSum,
            ComputeProgram::BlockSum,
            ComputeProgram::FinalSum,
            ComputeProgram::ToBlockSumBuffer,
            ComputeProgram::GenerateRayMapLocal2x2,
            ComputeProgram::RayMapSumX,
            ComputeProgram::RayMapSumY,
            ComputeProgram::RayMapSumZ,
            ComputeProgram::SignPass6Rays,
            ComputeProgram::SignPassNeighbors,
            ComputeProgram::InOutEdge,
            ComputeProgram::Buffer2Image,
            ComputeProgram::Jfa,
            ComputeProgram::DistanceTransformWinding,
            ComputeProgram::UdfInit,
            ComputeProgram::UdfFinal,
            ComputeProgram::SplatTriangleDistance,
        ];
        assert forall|program: ComputeProgram| programs@.contains(program) by {
            assert(programs@[program.spec_position()] == program);
        }
        programs
    }

    /// The name the kernel is configured under.
    pub open spec fn spec_name(self) -> Seq<char> {
        match self {
            ComputeProgram::Init => "init"@,
            ComputeProgram::GenTriInUvw => "gen_tri_in_uvw"@,
            ComputeProgram::CalTriDir => "cal_tri_dir"@,
            ComputeProgram::ConservativeRasterization => "conservative_rasterization"@,
            ComputeProgram::InBucketSum => "in_bucket_sum"@,
            ComputeProgram::BlockSum => "block_sum"@,
            ComputeProgram::FinalSum => "final_sum"@,
            ComputeProgram::ToBlockSumBuffer => "to_block_sum_buffer"@,
            ComputeProgram::GenerateRayMapLocal2x2 => "generate_ray_map_local2x2"@,
            ComputeProgram::RayMapSumX => "ray_map_sum_x"@,
            ComputeProgram::RayMapSumY => "ray_map_sum_y"@,
            ComputeProgram::RayMapSumZ => "ray_map_sum_z"@,
            ComputeProgram::SignPass6Rays => "sign_pass_6rays"@,
            ComputeProgram::SignPassNeighbors => "sign_pass_neighbors"@,
            ComputeProgram::InOutEdge => "in_out_edge"@,
            ComputeProgram::Buffer2Image => "buffer_2_image"@,
            ComputeProgram::Jfa => "jfa"@,
            ComputeProgram::DistanceTransformWinding => "distance_transform_winding"@,
            ComputeProgram::UdfInit => "udf_init"@,
            ComputeProgram::UdfFinal => "udf_final"@,
            ComputeProgram::SplatTriangleDistance => "splat_triangle_distance"@,
        }
    }

    /// The name the kernel is configured under.
    pub fn name(self) -> (s: &'static str)
        ensures
            s@ == self.spec_name(),
    {
        match self {
            ComputeProgram::Init => "init",
            ComputeProgram::GenTriInUvw => "gen_tri_in_uvw",
            ComputeProgram::CalTriDir => "cal_tri_dir",
            ComputeProgram::ConservativeRasterization => "conservative_rasterization",
            ComputeProgram::InBucketSum => "in_bucket_sum",
            ComputeProgram::BlockSum => "block_sum",
            ComputeProgram::FinalSum => "final_sum",
            ComputeProgram::ToBlockSumBuffer => "to_block_sum_buffer",
            ComputeProgram::GenerateRayMapLocal2x2 => "generate_ray_map_local2x2",
            ComputeProgram::RayMapSumX => "ray_map_sum_x",
            ComputeProgram::RayMapSumY => "ray_map_sum_y",
            ComputeProgram::RayMapSumZ => "ray_map_sum_z",
            ComputeProgram::SignPass6Rays => "sign_pass_6rays",
            ComputeProgram::SignPassNeighbors => "sign_pass_neighbors",
            ComputeProgram::InOutEdge => "in_out_edge",
            ComputeProgram::Buffer2Image => "buffer_2_image",
            ComputeProgram::Jfa => "jfa",
            ComputeProgram::DistanceTransformWinding => "distance_transform_winding",
            ComputeProgram::UdfInit => "udf_init",
            ComputeProgram::UdfFinal => "udf_final",
            ComputeProgram::SplatTriangleDistance => "splat_triangle_distance",
        }
    }

    /// The parameter set that is made along with the kernel.
    pub open spec fn spec_descriptor_set(self) -> DescriptorSet {
        match self {
            ComputeProgram::Init => DescriptorSet::Init,
            ComputeProgram::GenTriInUvw => DescriptorSet::GenTriInUvw,
            ComputeProgram::CalTriDir => DescriptorSet::CalTriDir,
            ComputeProgram::ConservativeRasterization => DescriptorSet::ConservativeRasterization,
            ComputeProgram::InBucketSum => DescriptorSet::InBucketSum,
            ComputeProgram::BlockSum => DescriptorSet::BlockSum,
            ComputeProgram::FinalSum => DescriptorSet::FinalSum,
            ComputeProgram::ToBlockSumBuffer => DescriptorSet::ToBlockSumBuffer,
            ComputeProgram::GenerateRayMapLocal2x2 => DescriptorSet::GenerateRayMapLocal2x2,
            ComputeProgram::RayMapSumX => DescriptorSet::RayMapSumX,
            ComputeProgram::RayMapSumY => DescriptorSet::RayMapSumY,
            ComputeProgram::RayMapSumZ => DescriptorSet::RayMapSumZ,
            ComputeProgram::SignPass6Rays => DescriptorSet::SignPass6Rays,
            ComputeProgram::SignPassNeighbors => DescriptorSet::SignPassNeighbors,
            ComputeProgram::InOutEdge => DescriptorSet::InOutEdge,
            ComputeProgram::Buffer2Image => DescriptorSet::Buffer2Image,
            ComputeProgram::Jfa => DescriptorSet::Jfa,
            ComputeProgram::DistanceTransformWinding => DescriptorSet::DistanceTransformWinding,
            ComputeProgram::UdfInit => DescriptorSet::UdfInit,
            ComputeProgram::UdfFinal => DescriptorSet::UdfFinal,
            ComputeProgram::SplatTriangleDistance => DescriptorSet::SplatTriangleDistance,
        }
    }

    /// The parameter set that is made along with the kernel.
    pub fn descriptor_set(self) -> (set: DescriptorSet)
        ensures
            set == self.spec_descriptor_set(),
    {
        match self {
            ComputeProgram::Init => DescriptorSet::Init,
            ComputeProgram::GenTriInUvw => DescriptorSet::GenTriInUvw,
            ComputeProgram::CalTriDir => DescriptorSet::CalTriDir,
            ComputeProgram::ConservativeRasterization => DescriptorSet::ConservativeRasterization,
            ComputeProgram::InBucketSum => DescriptorSet::InBucketSum,
            ComputeProgram::BlockSum => DescriptorSet::BlockSum,
            ComputeProgram::FinalSum => DescriptorSet::FinalSum,
            ComputeProgram::ToBlockSumBuffer => DescriptorSet::ToBlockSumBuffer,
            ComputeProgram::GenerateRayMapLocal2x2 => DescriptorSet::GenerateRayMapLocal2x2,
            ComputeProgram::RayMapSumX => DescriptorSet::RayMapSumX,
            ComputeProgram::RayMapSumY => DescriptorSet::RayMapSumY,
            ComputeProgram::RayMapSumZ => DescriptorSet::RayMapSumZ,
            ComputeProgram::SignPass6Rays => DescriptorSet::SignPass6Rays,
            ComputeProgram::SignPassNeighbors => DescriptorSet::SignPassNeighbors,
            ComputeProgram::InOutEdge => DescriptorSet::InOutEdge,
            ComputeProgram::Buffer2Image => DescriptorSet::Buffer2Image,
            ComputeProgram::Jfa => DescriptorSet::Jfa,
            ComputeProgram::DistanceTransformWinding => DescriptorSet::DistanceTransformWinding,
            ComputeProgram::UdfInit => DescriptorSet::UdfInit,
            ComputeProgram::UdfFinal => DescriptorSet::UdfFinal,
            ComputeProgram::SplatTriangleDistance => DescriptorSet::SplatTriangleDistance,
        }
    }

    /// The second parameter set of a kernel that runs in ping-pong.
    pub open spec fn spec_second_descriptor_set(self) -> Option<DescriptorSet> {
        match self {
            ComputeProgram::InBucketSum => Some(DescriptorSet::InBucketSum2),
            ComputeProgram::BlockSum => Some(DescriptorSet::BlockSum2),
            ComputeProgram::FinalSum => Some(DescriptorSet::FinalSum2),
            ComputeProgram::SignPassNeighbors => Some(DescriptorSet::SignPassNeighbors2),
            ComputeProgram::Jfa => Some(DescriptorSet::Jfa2),
            _ => None,
        }
    }

    /// The second parameter set of a kernel that runs in ping-pong.
    pub fn second_descriptor_set(self) -> (set: Option<DescriptorSet>)
        ensures
            set == self.spec_second_descriptor_set(),
    {
        match self {
            ComputeProgram::InBucketSum => Some(DescriptorSet::InBucketSum2),
            ComputeProgram::BlockSum => Some(DescriptorSet::BlockSum2),
            ComputeProgram::FinalSum => Some(DescriptorSet::FinalSum2),
            ComputeProgram::SignPassNeighbors => Some(DescriptorSet::SignPassNeighbors2),
            ComputeProgram::Jfa => Some(DescriptorSet::Jfa2),
            _ => None,
        }
    }
}

impl GraphicsProgram {
    /// The two rasterizing programs, in the order the voxelizer runs them.
    pub fn all() -> (programs: Vec<GraphicsProgram>)
        ensures
            programs@ == seq![
                GraphicsProgram::WriteUvwAndCoverage,
                GraphicsProgram::WriteTriangleIdsToVoxels,
            ],
    {
        vec![GraphicsProgram::WriteUvwAndCoverage, GraphicsProgram::WriteTriangleIdsToVoxels]
    }

    /// The name the program is configured under.
    pub open spec fn spec_name(self) -> Seq<char> {
        match self {
            GraphicsProgram::WriteUvwAndCoverage => "write_uvw_and_coverage"@,
            GraphicsProgram::WriteTriangleIdsToVoxels => "write_triangle_ids_to_voxels"@,
        }
    }

    /// The name the program is configured under.
    pub fn name(self) -> (s: &'static str)
        ensures
            s@ == self.spec_name(),
    {
        match self {
            GraphicsProgram::WriteUvwAndCoverage => "write_uvw_and_coverage",
            GraphicsProgram::WriteTriangleIdsToVoxels => "write_triangle_ids_to_voxels",
        }
    }

    /// The parameter set of the program.
    pub open spec fn spec_descriptor_set(self) -> DescriptorSet {
        match self {
            GraphicsProgram::WriteUvwAndCoverage => DescriptorSet::WriteUvwAndCoverage,
            GraphicsProgram::WriteTriangleIdsToVoxels => DescriptorSet::WriteTriangleIdsToVoxels,
        }
    }

    /// The parameter set of the program.
    pub fn descriptor_set(self) -> (set: DescriptorSet)
        ensures
            set == self.spec_descriptor_set(),
    {
        match self {
            GraphicsProgram::WriteUvwAndCoverage => DescriptorSet::WriteUvwAndCoverage,
            GraphicsProgram::WriteTriangleIdsToVoxels => DescriptorSet::WriteTriangleIdsToVoxels,
        }
    }
}

impl DescriptorSet {
    /// The name the set is kept under.
    pub open spec fn spec_name(self) -> Seq<char> {
        match self {
            DescriptorSet::Init => "init"@,
            DescriptorSet::GenTriInUvw => "gen_tri_in_uvw"@,
            DescriptorSet::CalTriDir => "cal_tri_dir"@,
            DescriptorSet::ConservativeRasterization => "conservative_rasterization"@,
            DescriptorSet::WriteUvwAndCoverage => "write_uvw_and_coverage"@,
            DescriptorSet::WriteTriangleIdsToVoxels => "write_triangle_ids_to_voxels"@,
            DescriptorSet::InBucketSum => "in_bucket_sum"@,
            DescriptorSet::BlockSum => "block_sum"@,
            DescriptorSet::FinalSum => "final_sum"@,
            DescriptorSet::ToBlockSumBuffer => "to_block_sum_buffer"@,
            DescriptorSet::InBucketSum2 => "in_bucket_sum_2"@,
            DescriptorSet::BlockSum2 => "block_sum_2"@,
            DescriptorSet::FinalSum2 => "final_sum_2"@,
            DescriptorSet::GenerateRayMapLocal2x2 => "generate_ray_map_local2x2"@,
            DescriptorSet::RayMapSumX => "ray_map_sum_x"@,
            DescriptorSet::RayMapSumY => "ray_map_sum_y"@,
            DescriptorSet::RayMapSumZ => "ray_map_sum_z"@,
            DescriptorSet::SignPass6Rays => "sign_pass_6rays"@,
            DescriptorSet::SignPassNeighbors => "sign_pass_neighbors"@,
            DescriptorSet::SignPassNeighbors2 => "sign_pass_neighbors_2"@,
            DescriptorSet::InOutEdge => "in_out_edge"@,
            DescriptorSet::Buffer2Image => "buffer_2_image"@,
            DescriptorSet::Jfa => "jfa"@,
            DescriptorSet::Jfa2 => "jfa_2"@,
            DescriptorSet::DistanceTransformWinding => "distance_transform_winding"@,
            DescriptorSet::UdfInit => "udf_init"@,
            DescriptorSet::UdfFinal => "udf_final"@,
            DescriptorSet::SplatTriangleDistance => "splat_triangle_distance"@,
        }
    }

    /// The name the set is kept under.
    pub fn name(self) -> (s: &'static str)
        ensures
            s@ == self.spec_name(),
    {
        match self {
            DescriptorSet::Init => "init",
            DescriptorSet::GenTriInUvw => "gen_tri_in_uvw",
            DescriptorSet::CalTriDir => "cal_tri_dir",
            DescriptorSet::ConservativeRasterization => "conservative_rasterization",
            DescriptorSet::WriteUvwAndCoverage => "write_uvw_and_coverage",
            DescriptorSet::WriteTriangleIdsToVoxels => "write_triangle_ids_to_voxels",
            DescriptorSet::InBucketSum => "in_bucket_sum",
            DescriptorSet::BlockSum => "block_sum",
            DescriptorSet::FinalSum => "final_sum",
            DescriptorSet::ToBlockSumBuffer => "to_block_sum_buffer",
            DescriptorSet::InBucketSum2 => "in_bucket_sum_2",
            DescriptorSet::BlockSum2 => "block_sum_2",
            DescriptorSet::FinalSum2 => "final_sum_2",
            DescriptorSet::GenerateRayMapLocal2x2 => "generate_ray_map_local2x2",
            DescriptorSet::RayMapSumX => "ray_map_sum_x",
            DescriptorSet::RayMapSumY => "ray_map_sum_y",
            DescriptorSet::RayMapSumZ => "ray_map_sum_z",
            DescriptorSet::SignPass6Rays => "sign_pass_6rays",
            DescriptorSet::SignPassNeighbors => "sign_pass_neighbors",
            DescriptorSet::SignPassNeighbors2 => "sign_pass_neighbors_2",
            DescriptorSet::InOutEdge => "in_out_edge",
            DescriptorSet::Buffer2Image => "buffer_2_image",
            DescriptorSet::Jfa => "jfa",
            DescriptorSet::Jfa2 => "jfa_2",
            DescriptorSet::DistanceTransformWinding => "distance_transform_winding",
            DescriptorSet::UdfInit => "udf_init",
            DescriptorSet::UdfFinal => "udf_final",
            DescriptorSet::SplatTriangleDistance => "splat_triangle_distance",
        }
    }
}

} // verus!
