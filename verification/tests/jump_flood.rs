use hala_sdf_baker::kernels::jump_flood::{distance, nearer, Voxel, VoxelGrid};

fn voxel(x: u32, y: u32, z: u32) -> Voxel {
    Voxel { x, y, z }
}

fn seeded(dimensions: [u32; 3], seeds: &[Voxel]) -> VoxelGrid {
    let mut grid = VoxelGrid::new(dimensions).unwrap();
    for s in seeds {
        grid.set(s.x, s.y, s.z, Some(*s));
    }
    grid
}

fn cost(grid: &VoxelGrid, x: u32, y: u32, z: u32) -> Option<u128> {
    grid.at(x, y, z).map(|v| distance(x, y, z, v))
}

#[test]
fn squared_distance() {
    assert_eq!(distance(1, 2, 3, voxel(4, 6, 3)), 25);
    assert_eq!(distance(4, 6, 3, voxel(1, 2, 3)), 25);
    assert_eq!(distance(0, 0, 0, voxel(u32::MAX, u32::MAX, u32::MAX)), 3 * (u32::MAX as u128).pow(2));
}

#[test]
fn no_reference_is_farthest() {
    let a = Some(voxel(0, 0, 0));
    let b = Some(voxel(5, 0, 0));
    assert!(nearer(4, 0, 0, a, b));
    assert!(!nearer(4, 0, 0, b, a));
    assert!(!nearer(4, 0, 0, a, a));
    assert!(nearer(4, 0, 0, None, a));
    assert!(!nearer(4, 0, 0, a, None));
    assert!(!nearer(4, 0, 0, None, None));
}

#[test]
fn grid_places() {
    let grid = VoxelGrid::new([3, 4, 5]).unwrap();
    assert_eq!(grid.cells.len(), 60);
    assert_eq!(grid.index(0, 0, 0), 0);
    assert_eq!(grid.index(2, 0, 0), 2);
    assert_eq!(grid.index(0, 1, 0), 3);
    assert_eq!(grid.index(0, 0, 1), 12);
    assert_eq!(grid.index(2, 3, 4), 59);
    assert!(VoxelGrid::new([0, 4, 5]).unwrap().cells.is_empty());
}

#[test]
fn pass_with_jump_one_reaches_the_neighbours() {
    let seed = voxel(2, 2, 0);
    let grid = seeded([5, 5, 1], &[seed]);
    let next = grid.flood_pass(1);
    for y in 0..5u32 {
        for x in 0..5u32 {
            let near = x.abs_diff(2) <= 1 && y.abs_diff(2) <= 1;
            assert_eq!(next.at(x, y, 0), if near { Some(seed) } else { None });
        }
    }
}

#[test]
fn pass_keeps_the_nearer_of_two() {
    let left = voxel(0, 0, 0);
    let right = voxel(4, 0, 0);
    let grid = seeded([5, 1, 1], &[left, right]);
    let next = grid.flood_pass(2);
    assert_eq!(next.at(0, 0, 0), Some(left));
    assert_eq!(next.at(1, 0, 0), None);
    // both are two steps away: the candidate seen first stays
    assert_eq!(next.at(2, 0, 0), Some(left));
    assert_eq!(next.at(3, 0, 0), None);
    assert_eq!(next.at(4, 0, 0), Some(right));
}

#[test]
fn flood_fills_the_grid_with_nearest_seeds() {
    let a = voxel(0, 0, 0);
    let b = voxel(7, 7, 7);
    let flooded = seeded([8, 8, 8], &[a, b]).jump_flood(8);
    assert_eq!(flooded.dimensions, [8, 8, 8]);
    for z in 0..8u32 {
        for y in 0..8u32 {
            for x in 0..8u32 {
                let got = flooded.at(x, y, z).unwrap();
                let da = distance(x, y, z, a);
                let db = distance(x, y, z, b);
                assert!(got == a || got == b);
                assert_eq!(distance(x, y, z, got), da.min(db));
            }
        }
    }
}

#[test]
fn distances_never_increase_from_pass_to_pass() {
    let seeds = [voxel(1, 5, 2), voxel(6, 0, 3), voxel(3, 3, 3)];
    let mut grid = seeded([7, 6, 4], &seeds);
    for jump in [1u32, 4, 2, 1] {
        let next = grid.flood_pass(jump);
        for z in 0..4u32 {
            for y in 0..6u32 {
                for x in 0..7u32 {
                    match (cost(&grid, x, y, z), cost(&next, x, y, z)) {
                        (Some(before), Some(after)) => assert!(after <= before),
                        (Some(_), None) => panic!("a reference was lost"),
                        _ => {}
                    }
                }
            }
        }
        grid = next;
    }
}

#[test]
fn flood_without_seeds_stays_empty() {
    let flooded = VoxelGrid::new([4, 4, 4]).unwrap().jump_flood(4);
    assert!(flooded.cells.iter().all(|c| c.is_none()));
}

#[test]
fn flood_at_resolution_one_is_the_first_pass() {
    let seed = voxel(0, 0, 0);
    let grid = seeded([3, 1, 1], &[seed]);
    let flooded = grid.clone().jump_flood(1);
    assert_eq!(flooded, grid.flood_pass(1));
    assert_eq!(flooded.cells, vec![Some(seed), Some(seed), None]);
}

#[test]
fn cube_shell_floods_inward() {
    // The surface voxels of a cube that fills a grid of resolution 32.
    let n = 32u32;
    let mut grid = VoxelGrid::new([n, n, n]).unwrap();
    for z in 0..n {
        for y in 0..n {
            for x in 0..n {
                let on_face = [x, y, z].iter().any(|c| *c == 0 || *c == n - 1);
                if on_face {
                    grid.set(x, y, z, Some(voxel(x, y, z)));
                }
            }
        }
    }
    let flooded = grid.jump_flood(n as i32);
    for z in 0..n {
        for y in 0..n {
            for x in 0..n {
                let to_face = [x, y, z].iter().map(|c| (*c).min(n - 1 - *c)).min().unwrap() as u128;
                assert_eq!(cost(&flooded, x, y, z), Some(to_face * to_face));
            }
        }
    }
    // deep inside, the surface is half the grid away
    assert_eq!(cost(&flooded, 16, 16, 16), Some(15 * 15));
    assert_eq!(cost(&flooded, 15, 16, 16), Some(15 * 15));
    assert_eq!(flooded.at(0, 5, 7), Some(voxel(0, 5, 7)));
}
