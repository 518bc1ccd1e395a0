use hala_sdf_baker::commands::{Buffer, Image, Projection};
use hala_sdf_baker::error::BakeError;
use hala_sdf_baker::inventory::Inventory;
use hala_sdf_baker::programs::{ComputeProgram, DescriptorSet, GraphicsProgram};
use hala_sdf_baker::resources::{Extent, Requirement, ResourceCache};

fn bytes(buffer: Buffer, size: u64) -> Requirement {
    Requirement::Buffer { buffer, size }
}

#[test]
fn resource_is_allocated_only_on_a_mismatch() {
    let mut cache = ResourceCache::new();
    assert!(cache.request(bytes(Buffer::Voxels, 64)));
    assert!(!cache.request(bytes(Buffer::Voxels, 64)));
    assert!(cache.request(bytes(Buffer::Voxels, 128)));
    assert!(cache.request(bytes(Buffer::Voxels, 64)));
    assert_eq!(cache.buffer(Buffer::Voxels), Some(64));
    assert_eq!(cache.buffer(Buffer::Counters), None);
}

#[test]
fn resources_are_kept_by_role() {
    let mut cache = ResourceCache::new();
    let extent = Extent { width: 4, height: 5, depth: 6 };
    let flat = Extent { width: 4, height: 5, depth: 1 };
    assert!(cache.request(Requirement::Image { image: Image::SignMap, extent }));
    assert!(cache.request(Requirement::Image { image: Image::SignMapBis, extent }));
    assert!(cache.request(Requirement::Image { image: Image::RenderTarget(Projection::XY), extent: flat }));
    assert!(cache.request(Requirement::Pipeline {
        program: GraphicsProgram::WriteUvwAndCoverage,
        projection: Projection::XY,
        extent: flat,
    }));
    assert!(!cache.request(Requirement::Image { image: Image::SignMap, extent }));
    assert_eq!(cache.image(Image::SignMapBis), Some(extent));
    assert_eq!(cache.image(Image::RayMap), None);
    assert_eq!(cache.image(Image::RenderTarget(Projection::YZ)), None);
    assert_eq!(cache.pipeline(GraphicsProgram::WriteUvwAndCoverage, Projection::XY), Some(flat));
    assert_eq!(cache.pipeline(GraphicsProgram::WriteTriangleIdsToVoxels, Projection::XY), None);
}

#[test]
fn requirements_are_met_one_after_the_other() {
    let mut cache = ResourceCache::new();
    cache.request(bytes(Buffer::Tmp, 8));
    let wanted = vec![
        bytes(Buffer::Tmp, 8),
        bytes(Buffer::Counters, 8),
        bytes(Buffer::Tmp, 16),
        bytes(Buffer::Counters, 8),
        bytes(Buffer::Tmp, 16),
    ];
    let allocations = cache.acquire(&wanted);
    assert_eq!(allocations, vec![bytes(Buffer::Counters, 8), bytes(Buffer::Tmp, 16)]);
    assert_eq!(cache.buffer(Buffer::Tmp), Some(16));
    assert!(cache.acquire(&vec![bytes(Buffer::Tmp, 16), bytes(Buffer::Counters, 8)]).is_empty());
}

#[test]
fn released_resource_is_allocated_again() {
    let mut cache = ResourceCache::new();
    cache.request(bytes(Buffer::JumpBuffer, 4));
    cache.release(bytes(Buffer::JumpBuffer, 4));
    assert_eq!(cache.buffer(Buffer::JumpBuffer), None);
    assert!(cache.request(bytes(Buffer::JumpBuffer, 4)));
}

#[test]
fn lookup_stops_at_the_first_gap() {
    let mut inventory = Inventory::new();
    inventory.add_program(ComputeProgram::Jfa);
    inventory.add_program(ComputeProgram::Init);
    inventory.add_descriptor_set(DescriptorSet::Jfa2);
    assert!(inventory.contains_program(ComputeProgram::Init));
    assert!(!inventory.contains_program(ComputeProgram::BlockSum));
    assert_eq!(inventory.require_programs(&vec![]), Ok(()));
    assert_eq!(inventory.require_programs(&vec![ComputeProgram::Init, ComputeProgram::Jfa]), Ok(()));
    assert_eq!(
        inventory.require_programs(&vec![
            ComputeProgram::Init,
            ComputeProgram::FinalSum,
            ComputeProgram::Jfa,
            ComputeProgram::BlockSum,
        ]),
        Err(BakeError::ProgramMissing(ComputeProgram::FinalSum))
    );
    assert_eq!(
        inventory.require_descriptor_sets(&vec![DescriptorSet::Jfa2, DescriptorSet::Jfa]),
        Err(BakeError::DescriptorSetMissing(DescriptorSet::Jfa))
    );
}
