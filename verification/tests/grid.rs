use hala_sdf_baker::grid::{estimate_grid_size, max_extent, reference_axis, Axis, SIZE_UNIT};

#[test]
fn long_axis_gets_the_resolution() {
    assert_eq!(estimate_grid_size(&[2, 1, 1], 64), [64, 32, 32]);
    assert_eq!(estimate_grid_size(&[2 * SIZE_UNIT, SIZE_UNIT, SIZE_UNIT], 64), [64, 32, 32]);
}

#[test]
fn other_axes_round_up() {
    // 64 * 3 / 10 = 19.2 and 64 * 1 / 10 = 6.4
    assert_eq!(estimate_grid_size(&[10, 3, 1], 64), [64, 20, 7]);
    // 7 * 1 / 3 = 2.33..
    assert_eq!(estimate_grid_size(&[1, 3, 1], 7), [3, 7, 3]);
    // exact ratios are not rounded further up
    assert_eq!(estimate_grid_size(&[4, 2, 1], 8), [8, 4, 2]);
}

#[test]
fn halving_an_extent_never_goes_below_one_voxel() {
    let mut extent: u64 = 1 << 40;
    let mut last = u32::MAX;
    while extent > 0 {
        let dims = estimate_grid_size(&[1 << 40, extent, 0], 64);
        assert_eq!(dims[0], 64);
        assert!(dims[1] >= 1);
        assert!(dims[1] <= last);
        assert_eq!(dims[2], 1);
        last = dims[1];
        extent /= 2;
    }
    assert_eq!(estimate_grid_size(&[1 << 40, 0, 0], 64), [64, 1, 1]);
}

#[test]
fn first_axis_wins_a_tie() {
    assert_eq!(reference_axis(&[5, 5, 5]), Axis::X);
    assert_eq!(reference_axis(&[1, 5, 5]), Axis::Y);
    assert_eq!(reference_axis(&[1, 2, 5]), Axis::Z);
    assert_eq!(reference_axis(&[5, 1, 5]), Axis::X);
    assert_eq!(reference_axis(&[0, 0, 0]), Axis::X);
    assert_eq!(estimate_grid_size(&[1, 5, 5], 10), [2, 10, 10]);
}

#[test]
fn box_without_extent_gets_one_voxel() {
    assert_eq!(estimate_grid_size(&[0, 0, 0], 64), [1, 1, 1]);
}

#[test]
fn resolution_below_one_gets_one_voxel() {
    assert_eq!(estimate_grid_size(&[2, 1, 1], 0), [1, 1, 1]);
    assert_eq!(estimate_grid_size(&[2, 1, 1], -5), [1, 1, 1]);
    assert_eq!(estimate_grid_size(&[2, 1, 1], 1), [1, 1, 1]);
}

#[test]
fn largest_inputs_do_not_overflow() {
    assert_eq!(
        estimate_grid_size(&[u64::MAX, u64::MAX, 1], i32::MAX),
        [i32::MAX as u32, i32::MAX as u32, 1]
    );
    assert_eq!(max_extent(&[3, u64::MAX, 7]), u64::MAX);
}

#[test]
fn axis_positions() {
    assert_eq!(Axis::X.index(), 0);
    assert_eq!(Axis::Y.index(), 1);
    assert_eq!(Axis::Z.index(), 2);
}
