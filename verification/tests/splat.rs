use hala_sdf_baker::kernels::splat::{finalize, initialize, splat_distances, Splat};

fn offer(voxel: u32, distance: u32) -> Splat {
    Splat { voxel, distance }
}

#[test]
fn field_starts_beyond_every_distance() {
    assert_eq!(initialize(4, 1010), vec![1010; 4]);
    assert_eq!(initialize(0, 7), Vec::<u32>::new());
}

#[test]
fn splat_keeps_the_least_distance() {
    let mut field = initialize(4, 1010);
    splat_distances(&mut field, &vec![offer(1, 50), offer(2, 2000), offer(1, 70), offer(3, 9), offer(1, 20)]);
    assert_eq!(field, vec![1010, 20, 1010, 9]);
}

#[test]
fn order_of_splats_does_not_matter() {
    let splats = vec![offer(0, 5), offer(1, 8), offer(0, 3), offer(2, 1), offer(1, 8), offer(0, 4)];
    let mut forward = initialize(3, 100);
    splat_distances(&mut forward, &splats);
    let mut backward = initialize(3, 100);
    splat_distances(&mut backward, &splats.iter().rev().cloned().collect());
    assert_eq!(forward, vec![3, 8, 1]);
    assert_eq!(forward, backward);
    let mut halves = initialize(3, 100);
    splat_distances(&mut halves, &splats[3..].to_vec());
    splat_distances(&mut halves, &splats[..3].to_vec());
    assert_eq!(forward, halves);
}

#[test]
fn splats_never_raise_a_distance() {
    let mut field = vec![4, 0, 9];
    let before = field.clone();
    splat_distances(&mut field, &vec![offer(0, 6), offer(1, 6), offer(2, 6), offer(7, 0)]);
    assert_eq!(field, vec![4, 0, 6]);
    assert!(field.iter().zip(before.iter()).all(|(after, before)| after <= before));
}

#[test]
fn finished_field_is_clamped() {
    let mut field = vec![1010, 20, 1000, 1001];
    finalize(&mut field, 1000);
    assert_eq!(field, vec![1000, 20, 1000, 1000]);
}
