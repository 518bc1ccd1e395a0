use hala_sdf_baker::kernels::binning::{bin_triangles, count_coverage, Incidence};

fn hit(triangle: u32, voxel: u32) -> Incidence {
    Incidence { triangle, voxel }
}

#[test]
fn single_triangle_inside_one_voxel() {
    let list = bin_triangles(&vec![hit(0, 5)], 8, 1024).unwrap();
    assert_eq!(list.counts, vec![0, 0, 0, 0, 0, 1, 0, 0]);
    assert_eq!(list.offsets, vec![0, 0, 0, 0, 0, 0, 1, 1]);
    assert_eq!(list.triangles, vec![0]);
    assert_eq!(list.list(5), vec![0]);
    for voxel in [0usize, 1, 2, 3, 4, 6, 7] {
        assert_eq!(list.list(voxel), Vec::<u32>::new());
    }
}

#[test]
fn every_voxel_lists_the_triangles_that_cover_it() {
    let coverage = vec![hit(7, 2), hit(7, 3), hit(8, 2), hit(9, 0), hit(8, 3), hit(10, 2)];
    let list = bin_triangles(&coverage, 4, 6).unwrap();
    assert_eq!(list.counts, vec![1, 0, 3, 2]);
    assert_eq!(list.offsets, vec![0, 1, 1, 4]);
    assert_eq!(list.triangles, vec![9, 7, 8, 10, 7, 8]);
    assert_eq!(list.list(0), vec![9]);
    assert_eq!(list.list(1), Vec::<u32>::new());
    assert_eq!(list.list(2), vec![7, 8, 10]);
    assert_eq!(list.list(3), vec![7, 8]);
}

#[test]
fn hits_outside_the_grid_count_for_nothing() {
    let coverage = vec![hit(1, 9), hit(2, 1), hit(3, 4)];
    assert_eq!(count_coverage(&coverage, 4), vec![0, 1, 0, 0]);
    let list = bin_triangles(&coverage, 4, 1).unwrap();
    assert_eq!(list.triangles, vec![2]);
}

#[test]
fn list_without_room_is_not_built() {
    let coverage = vec![hit(0, 0), hit(1, 0), hit(2, 1)];
    assert!(bin_triangles(&coverage, 2, 2).is_none());
    assert!(bin_triangles(&coverage, 2, 3).is_some());
}

#[test]
fn empty_coverage_gives_empty_runs() {
    let list = bin_triangles(&vec![], 3, 0).unwrap();
    assert_eq!(list.counts, vec![0, 0, 0]);
    assert_eq!(list.offsets, vec![0, 0, 0]);
    assert_eq!(list.triangles, Vec::<u32>::new());
}
