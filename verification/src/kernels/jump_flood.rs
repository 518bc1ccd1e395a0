//! The flood of nearest surface voxels. Every voxel holds a reference to
//! the nearest surface voxel it knows of, or none. A pass with jump `s`
//! lets every voxel look at itself and at the 26 voxels `s` steps away
//! along the axes and diagonals, and keep the nearest reference it sees.
//! The passes read one grid and write another, so a pass never sees its own
//! writes.

use vstd::prelude::*;
use vstd::arithmetic::div_mod::lemma_fundamental_div_mod_converse;
use vstd::arithmetic::power2::pow2;
use crate::bake::{floor_log2, power_of_two, spec_floor_log2};

verus! {

/// A voxel of the grid, by its coordinates.
#[derive(Clone, Copy, Debug, PartialEq, Eq, Structural)]
pub struct Voxel {
    pub x: u32,
    pub y: u32,
    pub z: u32,
}

/// The grid of the flood: for each voxel, in rows along X, then Y, then Z,
/// the surface voxel it refers to, if any.
#[derive(Clone, Debug, PartialEq, Eq)]
pub struct VoxelGrid {
    pub dimensions: [u32; 3],
    pub cells: Vec<Option<Voxel>>,
}

/// Candidates a voxel looks at in a pass: itself and its 26 neighbours.
pub const CANDIDATES: u32 = 27;

/// Number of voxels of a grid.
pub open spec fn spec_volume(dimensions: Seq<u32>) -> int {
    dimensions[0] as int * dimensions[1] as int * dimensions[2] as int
}

/// Whether the coordinates are inside the grid.
pub open spec fn spec_in_bounds(dimensions: Seq<u32>, x: int, y: int, z: int) -> bool {
    0 <= x < dimensions[0] && 0 <= y < dimensions[1] && 0 <= z < dimensions[2]
}

/// The place of a voxel among the cells.
pub open spec fn spec_index(dimensions: Seq<u32>, x: int, y: int, z: int) -> int {
    x + dimensions[0] as int * (y + dimensions[1] as int * z)
}

/// The coordinates of the voxel at a place among the cells.
pub open spec fn spec_decode(dimensions: Seq<u32>, i: int) -> (int, int, int) {
    let nx = dimensions[0] as int;
    let ny = dimensions[1] as int;
    (i % nx, (i / nx) % ny, (i / nx) / ny)
}

/// What the voxel at the coordinates refers to; nothing outside the grid.
pub open spec fn spec_lookup(dimensions: Seq<u32>, cells: Seq<Option<Voxel>>, x: int, y: int, z: int) -> Option<
    Voxel,
> {
    if spec_in_bounds(dimensions, x, y, z) {
        cells[spec_index(dimensions, x, y, z)]
    } else {
        None
    }
}

/// The direction of candidate `k`: each component is -1, 0 or 1, and the
/// thirteenth candidate is the voxel itself.
pub open spec fn spec_delta(k: int) -> (int, int, int) {
    (k % 3 - 1, (k / 3) % 3 - 1, k / 9 - 1)
}

/// What candidate `k` of a voxel refers to, for a jump.
pub open spec fn spec_candidate(
    dimensions: Seq<u32>,
    cells: Seq<Option<Voxel>>,
    at: (int, int, int),
    jump: int,
    k: int,
) -> Option<Voxel> {
    let d = spec_delta(k);
    spec_lookup(dimensions, cells, at.0 + d.0 * jump, at.1 + d.1 * jump, at.2 + d.2 * jump)
}

/// The squared distance between a place and a voxel.
pub open spec fn spec_distance(at: (int, int, int), to: Voxel) -> int {
    (at.0 - to.x) * (at.0 - to.x) + (at.1 - to.y) * (at.1 - to.y) + (at.2 - to.z) * (at.2 - to.z)
}

/// Whether reference `b` is strictly nearer to the place than reference
/// `a`. No reference is farther than any.
pub open spec fn spec_nearer(at: (int, int, int), a: Option<Voxel>, b: Option<Voxel>) -> bool {
    match (a, b) {
        (_, None) => false,
        (None, Some(_)) => true,
        (Some(old), Some(new)) => spec_distance(at, new) < spec_distance(at, old),
    }
}

/// Whether reference `a` is at most as far from the place as reference `b`.
pub open spec fn spec_no_farther(at: (int, int, int), a: Option<Voxel>, b: Option<Voxel>) -> bool {
    !spec_nearer(at, a, b)
}

/// The reference a voxel holds after looking at its first `k` candidates:
/// its own to begin with, replaced by each candidate that is strictly
/// nearer.
pub open spec fn spec_best(
    dimensions: Seq<u32>,
    cells: Seq<Option<Voxel>>,
    at: (int, int, int),
    jump: int,
    k: int,
) -> Option<Voxel>
    decreases k,
{
    if k <= 0 {
        spec_lookup(dimensions, cells, at.0, at.1, at.2)
    } else {
        let before = spec_best(dimensions, cells, at, jump, k - 1);
        let candidate = spec_candidate(dimensions, cells, at, jump, k - 1);
        if spec_nearer(at, before, candidate) {
            candidate
        } else {
            before
        }
    }
}

/// The cells after one pass with a jump.
pub open spec fn spec_pass(dimensions: Seq<u32>, cells: Seq<Option<Voxel>>, jump: int) -> Seq<
    Option<Voxel>,
> {
    Seq::new(
        cells.len(),
        |i: int|
            spec_best(dimensions, cells, spec_decode(dimensions, i), jump, CANDIDATES as int),
    )
}

/// The cells after the first pass, which jumps by 1, and `level` passes of
/// a flood of `steps` passes, whose jumps halve down to 1.
pub open spec fn spec_flood(
    dimensions: Seq<u32>,
    cells: Seq<Option<Voxel>>,
    steps: nat,
    level: nat,
) -> Seq<Option<Voxel>>
    decreases level,
{
    if level == 0 {
        spec_pass(dimensions, cells, 1)
    } else {
        spec_pass(
            dimensions,
            spec_flood(dimensions, cells, steps, (level - 1) as nat),
            pow2((steps - level) as nat) as int,
        )
    }
}

/// A voxel inside the grid has a place among the cells, and the place
/// leads back to the voxel.
pub proof fn lemma_index(dimensions: Seq<u32>, x: int, y: int, z: int)
    requires
        dimensions.len() == 3,
        spec_in_bounds(dimensions, x, y, z),
    ensures
        0 <= spec_index(dimensions, x, y, z) < spec_volume(dimensions),
        spec_decode(dimensions, spec_index(dimensions, x, y, z)) == (x, y, z),
        0 <= y + dimensions[1] as int * z < dimensions[1] as int * dimensions[2] as int,
{
    let nx = dimensions[0] as int;
    let ny = dimensions[1] as int;
    let nz = dimensions[2] as int;
    let row = y + ny * z;
    assert(0 <= row < ny * nz) by (nonlinear_arith)
        requires
            0 <= y < ny,
            0 <= z < nz,
            row == y + ny * z,
    ;
    assert(0 <= x + nx * row < nx * ny * nz) by (nonlinear_arith)
        requires
            0 <= x < nx,
            0 <= row < ny * nz,
    ;
    assert(x + nx * row == row * nx + x) by (nonlinear_arith);
    lemma_fundamental_div_mod_converse(x + nx * row, nx, row, x);
    assert(y + ny * z == z * ny + y) by (nonlinear_arith);
    lemma_fundamental_div_mod_converse(row, ny, z, y);
}

/// No reference is nearer than the nearest seen so far: after looking at
/// `k` candidates a voxel holds a reference that is no farther than its own
/// before the pass and no farther than any of those candidates.
pub proof fn lemma_best_is_nearest(
    dimensions: Seq<u32>,
    cells: Seq<Option<Voxel>>,
    at: (int, int, int),
    jump: int,
    k: int,
    j: int,
)
    requires
        0 <= j < k,
    ensures
        spec_no_farther(
            at,
            spec_best(dimensions, cells, at, jump, k),
            spec_lookup(dimensions, cells, at.0, at.1, at.2),
        ),
        spec_no_farther(
            at,
            spec_best(dimensions, cells, at, jump, k),
            spec_candidate(dimensions, cells, at, jump, j),
        ),
    decreases k,
{
    if k - 1 > j {
        lemma_best_is_nearest(dimensions, cells, at, jump, k - 1, j);
    }
    if k - 1 > 0 {
        lemma_best_is_nearest(dimensions, cells, at, jump, k - 1, 0);
    }
}

/// What a voxel holds after looking at `k` candidates is its own reference
/// from before the pass or that of one of those candidates: a pass makes up
/// no reference.
pub proof fn lemma_best_is_seen(
    dimensions: Seq<u32>,
    cells: Seq<Option<Voxel>>,
    at: (int, int, int),
    jump: int,
    k: int,
)
    requires
        0 <= k,
    ensures
        spec_best(dimensions, cells, at, jump, k) == spec_lookup(
            dimensions,
            cells,
            at.0,
            at.1,
            at.2,
        ) || exists|j: int|
            0 <= j < k && spec_best(dimensions, cells, at, jump, k) == #[trigger] spec_candidate(
                dimensions,
                cells,
                at,
                jump,
                j,
            ),
    decreases k,
{
    if k > 0 {
        lemma_best_is_seen(dimensions, cells, at, jump, k - 1);
        let before = spec_best(dimensions, cells, at, jump, k - 1);
        let candidate = spec_candidate(dimensions, cells, at, jump, k - 1);
        if spec_nearer(at, before, candidate) {
        } else if before != spec_lookup(dimensions, cells, at.0, at.1, at.2) {
            let j = choose|j: int|
                0 <= j < k - 1 && before == #[trigger] spec_candidate(dimensions, cells, at, jump, j);
            assert(spec_candidate(dimensions, cells, at, jump, j) == before);
        }
    }
}

/// Distances never increase: after a pass every voxel refers to a surface
/// voxel that is no farther than the one it referred to before the pass,
/// and a voxel that referred to one still does.
pub proof fn lemma_pass_never_farther(
    dimensions: Seq<u32>,
    cells: Seq<Option<Voxel>>,
    jump: int,
    x: int,
    y: int,
    z: int,
)
    requires
        dimensions.len() == 3,
        cells.len() == spec_volume(dimensions),
        spec_in_bounds(dimensions, x, y, z),
    ensures
        spec_no_farther(
            (x, y, z),
            spec_lookup(dimensions, spec_pass(dimensions, cells, jump), x, y, z),
            spec_lookup(dimensions, cells, x, y, z),
        ),
        spec_lookup(dimensions, cells, x, y, z) is Some ==> spec_lookup(
            dimensions,
            spec_pass(dimensions, cells, jump),
            x,
            y,
            z,
        ) is Some,
{
    lemma_index(dimensions, x, y, z);
    lemma_best_is_nearest(dimensions, cells, (x, y, z), jump, CANDIDATES as int, 0);
}

/// Distances never increase over a flood: after every pass every voxel
/// refers to a surface voxel that is no farther than the one it referred to
/// after the pass before, and so no farther than the one it started with.
pub proof fn lemma_flood_never_farther(
    dimensions: Seq<u32>,
    cells: Seq<Option<Voxel>>,
    steps: nat,
    level: nat,
    x: int,
    y: int,
    z: int,
)
    requires
        dimensions.len() == 3,
        cells.len() == spec_volume(dimensions),
        spec_in_bounds(dimensions, x, y, z),
    ensures
        spec_flood(dimensions, cells, steps, level).len() == cells.len(),
        level > 0 ==> spec_no_farther(
            (x, y, z),
            spec_lookup(dimensions, spec_flood(dimensions, cells, steps, level), x, y, z),
            spec_lookup(
                dimensions,
                spec_flood(dimensions, cells, steps, (level - 1) as nat),
                x,
                y,
                z,
            ),
        ),
        spec_no_farther(
            (x, y, z),
            spec_lookup(dimensions, spec_flood(dimensions, cells, steps, level), x, y, z),
            spec_lookup(dimensions, cells, x, y, z),
        ),
    decreases level,
{
    if level == 0 {
        lemma_pass_never_farther(dimensions, cells, 1, x, y, z);
    } else {
        let before = spec_flood(dimensions, cells, steps, (level - 1) as nat);
        lemma_flood_never_farther(dimensions, cells, steps, (level - 1) as nat, x, y, z);
        lemma_pass_never_farther(dimensions, before, pow2((steps - level) as nat) as int, x, y, z);
    }
}

impl VoxelGrid {
    /// Whether the grid has a cell for each of its voxels.
    pub open spec fn wf(&self) -> bool {
        self.cells@.len() == spec_volume(self.dimensions@)
    }

    /// What the voxel at the coordinates refers to.
    pub open spec fn spec_at(&self, x: int, y: int, z: int) -> Option<Voxel> {
        spec_lookup(self.dimensions@, self.cells@, x, y, z)
    }

    /// A grid of the given dimensions in which no voxel refers to anything,
    /// where it has few enough voxels to be held.
    pub fn new(dimensions: [u32; 3]) -> (grid: Option<VoxelGrid>)
        ensures
            grid is Some <==> spec_volume(dimensions@) <= usize::MAX,
            grid is Some ==> grid->0.wf() && grid->0.dimensions@ == dimensions@ && forall|i: int|
                0 <= i < grid->0.cells@.len() ==> grid->0.cells@[i] is None,
    {
        proof {
            assert(dimensions[0] as int * dimensions[1] as int <= 0xffff_ffff * 0xffff_ffff)
                by (nonlinear_arith)
                requires
                    0 <= dimensions[0] as int <= 0xffff_ffff,
                    0 <= dimensions[1] as int <= 0xffff_ffff,
            ;
        }
        let plane: u64 = dimensions[0] as u64 * dimensions[1] as u64;
        proof {
            assert(plane as int * dimensions[2] as int <= 0xffff_ffff * 0xffff_ffff * 0xffff_ffff)
                by (nonlinear_arith)
                requires
                    0 <= plane as int <= 0xffff_ffff * 0xffff_ffff,
                    0 <= dimensions[2] as int <= 0xffff_ffff,
            ;
        }
        let volume: u128 = plane as u128 * dimensions[2] as u128;
        if volume > usize::MAX as u128 {
            return None;
        }
        let mut cells: Vec<Option<Voxel>> = Vec::new();
        let mut i: u128 = 0;
        while i < volume
            invariant
                i <= volume <= usize::MAX,
                cells@.len() == i,
                forall|k: int| 0 <= k < i ==> cells@[k] is None,
            decreases volume - i,
        {
            cells.push(None);
            i = i + 1;
        }
        Some(VoxelGrid { dimensions, cells })
    }

    /// The place of a voxel among the cells.
    pub fn index(&self, x: u32, y: u32, z: u32) -> (i: usize)
        requires
            self.wf(),
            spec_in_bounds(self.dimensions@, x as int, y as int, z as int),
        ensures
            i == spec_index(self.dimensions@, x as int, y as int, z as int),
            i < self.cells@.len(),
    {
        let count = self.cells.len();
        proof {
            lemma_index(self.dimensions@, x as int, y as int, z as int);
            let nx = self.dimensions@[0] as int;
            let ny = self.dimensions@[1] as int;
            let nz = self.dimensions@[2] as int;
            assert(ny * z <= ny * nz) by (nonlinear_arith)
                requires
                    0 <= z < nz,
                    0 <= ny,
            ;
            assert(ny * nz <= nx * ny * nz) by (nonlinear_arith)
                requires
                    1 <= nx,
                    0 <= ny,
                    0 <= nz,
            ;
            assert(nx * (y + ny * z) <= nx * ny * nz) by (nonlinear_arith)
                requires
                    0 <= y + ny * z < ny * nz,
                    1 <= nx,
            ;
            assert(0 <= ny * z) by (nonlinear_arith)
                requires
                    0 <= z,
                    0 <= ny,
            ;
            assert(0 <= nx * (y + ny * z)) by (nonlinear_arith)
                requires
                    0 <= y + ny * z,
                    0 <= nx,
            ;
            assert(nx * ny * nz == count);
            assert(ny * z <= usize::MAX);
            assert(y + ny * z <= usize::MAX);
            assert(nx * (y + ny * z) <= usize::MAX);
        }
        let row: usize = y as usize + self.dimensions[1] as usize * z as usize;
        x as usize + self.dimensions[0] as usize * row
    }

    /// What the voxel at the coordinates refers to.
    pub fn at(&self, x: u32, y: u32, z: u32) -> (cell: Option<Voxel>)
        requires
            self.wf(),
            spec_in_bounds(self.dimensions@, x as int, y as int, z as int),
        ensures
            cell == self.spec_at(x as int, y as int, z as int),
    {
        self.cells[self.index(x, y, z)]
    }

    /// Makes a voxel refer to a surface voxel, or to none.
    pub fn set(&mut self, x: u32, y: u32, z: u32, cell: Option<Voxel>)
        requires
            old(self).wf(),
            spec_in_bounds(old(self).dimensions@, x as int, y as int, z as int),
        ensures
            final(self).wf(),
            final(self).dimensions@ == old(self).dimensions@,
            final(self).cells@ == old(self).cells@.update(
                spec_index(old(self).dimensions@, x as int, y as int, z as int),
                cell,
            ),
    {
        let i = self.index(x, y, z);
        self.cells.set(i, cell);
    }
}

/// The squared distance between a voxel and the surface voxel a reference
/// names.
pub fn distance(x: u32, y: u32, z: u32, to: Voxel) -> (d: u128)
    ensures
        d == spec_distance((x as int, y as int, z as int), to),
{
    let dx: u128 = if x >= to.x {
        (x - to.x) as u128
    } else {
        (to.x - x) as u128
    };
    let dy: u128 = if y >= to.y {
        (y - to.y) as u128
    } else {
        (to.y - y) as u128
    };
    let dz: u128 = if z >= to.z {
        (z - to.z) as u128
    } else {
        (to.z - z) as u128
    };
    proof {
        assert(dx * dx <= 0xffff_ffff * 0xffff_ffff) by (nonlinear_arith)
            requires
                0 <= dx <= 0xffff_ffff,
        ;
        assert(dy * dy <= 0xffff_ffff * 0xffff_ffff) by (nonlinear_arith)
            requires
                0 <= dy <= 0xffff_ffff,
        ;
        assert(dz * dz <= 0xffff_ffff * 0xffff_ffff) by (nonlinear_arith)
            requires
                0 <= dz <= 0xffff_ffff,
        ;
        assert(dx * dx == (x - to.x) * (x - to.x)) by (nonlinear_arith)
            requires
                dx == x - to.x || dx == to.x - x,
        ;
        assert(dy * dy == (y - to.y) * (y - to.y)) by (nonlinear_arith)
            requires
                dy == y - to.y || dy == to.y - y,
        ;
        assert(dz * dz == (z - to.z) * (z - to.z)) by (nonlinear_arith)
            requires
                dz == z - to.z || dz == to.z - z,
        ;
    }
    dx * dx + dy * dy + dz * dz
}

/// Whether reference `b` is strictly nearer to the voxel than reference `a`.
pub fn nearer(x: u32, y: u32, z: u32, a: Option<Voxel>, b: Option<Voxel>) -> (yes: bool)
    ensures
        yes == spec_nearer((x as int, y as int, z as int), a, b),
{
    match b {
        None => false,
        Some(new) => match a {
            None => true,
            Some(old) => distance(x, y, z, new) < distance(x, y, z, old),
        },
    }
}

/// One coordinate of a candidate: the voxel's own, moved by the jump in the
/// direction `step - 1`, if that is inside `0..limit`.
fn moved(own: u32, step: u32, jump: u32, limit: u32) -> (coordinate: Option<u32>)
    requires
        step <= 2,
    ensures
        coordinate is Some <==> 0 <= own + (step - 1) * jump < limit,
        coordinate is Some ==> coordinate->0 == own + (step - 1) * jump,
{
    let moved: i64 = if step == 0 {
        own as i64 - jump as i64
    } else if step == 1 {
        own as i64
    } else {
        own as i64 + jump as i64
    };
    proof {
        assert((step - 1) * jump == (if step == 0 {
            -(jump as int)
        } else if step == 1 {
            0
        } else {
            jump as int
        })) by (nonlinear_arith)
            requires
                0 <= step <= 2,
        ;
    }
    if moved >= 0 && moved < limit as i64 {
        Some(moved as u32)
    } else {
        None
    }
}

impl VoxelGrid {
    /// What candidate `k` of a voxel refers to, for a jump.
    pub fn candidate(&self, x: u32, y: u32, z: u32, jump: u32, k: u32) -> (cell: Option<Voxel>)
        requires
            self.wf(),
            k < CANDIDATES,
        ensures
            cell == spec_candidate(
                self.dimensions@,
                self.cells@,
                (x as int, y as int, z as int),
                jump as int,
                k as int,
            ),
    {
        let cx = moved(x, k % 3, jump, self.dimensions[0]);
        let cy = moved(y, (k / 3) % 3, jump, self.dimensions[1]);
        let cz = moved(z, k / 9, jump, self.dimensions[2]);
        match (cx, cy, cz) {
            (Some(nx), Some(ny), Some(nz)) => self.at(nx, ny, nz),
            _ => None,
        }
    }

    /// The reference a voxel holds after a pass with a jump: the nearest of
    /// its own and those of its candidates, the earlier of equally near
    /// ones.
    pub fn best(&self, x: u32, y: u32, z: u32, jump: u32) -> (cell: Option<Voxel>)
        requires
            self.wf(),
            spec_in_bounds(self.dimensions@, x as int, y as int, z as int),
        ensures
            cell == spec_best(
                self.dimensions@,
                self.cells@,
                (x as int, y as int, z as int),
                jump as int,
                CANDIDATES as int,
            ),
    {
        let mut best = self.at(x, y, z);
        let mut k: u32 = 0;
        while k < CANDIDATES
            invariant
                self.wf(),
                k <= CANDIDATES,
                best == spec_best(
                    self.dimensions@,
                    self.cells@,
                    (x as int, y as int, z as int),
                    jump as int,
                    k as int,
                ),
            decreases CANDIDATES - k,
        {
            let candidate = self.candidate(x, y, z, jump, k);
            if nearer(x, y, z, best, candidate) {
                best = candidate;
            }
            k = k + 1;
        }
        best
    }

    /// One pass of the flood with a jump: a new grid in which every voxel
    /// holds the nearest of the references it sees in this one.
    pub fn flood_pass(&self, jump: u32) -> (next: VoxelGrid)
        requires
            self.wf(),
        ensures
            next.wf(),
            next.dimensions@ == self.dimensions@,
            next.cells@ == spec_pass(self.dimensions@, self.cells@, jump as int),
    {
        let nx = self.dimensions[0];
        let ny = self.dimensions[1];
        let nz = self.dimensions[2];
        let n = self.cells.len();
        let mut cells: Vec<Option<Voxel>> = Vec::new();
        let mut x: u32 = 0;
        let mut y: u32 = 0;
        let mut z: u32 = 0;
        let mut i: usize = 0;
        proof {
            if n > 0 {
                assert(nx > 0 && ny > 0 && nz > 0) by (nonlinear_arith)
                    requires
                        nx as int * ny as int * nz as int > 0,
                        nx >= 0,
                        ny >= 0,
                        nz >= 0,
                ;
                assert(nx * 0 == 0 && ny * 0 == 0) by (nonlinear_arith);
            }
        }
        while i < n
            invariant
                self.wf(),
                nx == self.dimensions@[0],
                ny == self.dimensions@[1],
                nz == self.dimensions@[2],
                n == self.cells@.len(),
                i <= n,
                cells@.len() == i,
                i < n ==> spec_in_bounds(self.dimensions@, x as int, y as int, z as int),
                i < n ==> i == spec_index(self.dimensions@, x as int, y as int, z as int),
                forall|j: int|
                    0 <= j < i ==> cells@[j] == spec_best(
                        self.dimensions@,
                        self.cells@,
                        spec_decode(self.dimensions@, j),
                        jump as int,
                        CANDIDATES as int,
                    ),
            decreases n - i,
        {
            proof {
                lemma_index(self.dimensions@, x as int, y as int, z as int);
            }
            let cell = self.best(x, y, z, jump);
            cells.push(cell);
            i = i + 1;
            if i < n {
                proof {
                    let wx = nx as int;
                    let wy = ny as int;
                    let wz = nz as int;
                    if x + 1 < nx {
                    } else if y + 1 < ny {
                        assert((wx - 1) + wx * (y + wy * z) + 1 == 0 + wx * ((y + 1) + wy * z))
                            by (nonlinear_arith);
                    } else {
                        assert((wx - 1) + wx * ((wy - 1) + wy * z) + 1 == 0 + wx * (0 + wy * (z + 1)))
                            by (nonlinear_arith);
                        if z + 1 >= nz {
                            assert(wx * (wy * wz) == wx * wy * wz) by (nonlinear_arith);
                            assert(false);
                        }
                    }
                }
                if x + 1 < nx {
                    x = x + 1;
                } else if y + 1 < ny {
                    x = 0;
                    y = y + 1;
                } else {
                    x = 0;
                    y = 0;
                    z = z + 1;
                }
            }
        }
        assert(cells@ =~= spec_pass(self.dimensions@, self.cells@, jump as int));
        VoxelGrid { dimensions: self.dimensions, cells }
    }

    /// The flood for a resolution: a first pass that jumps by 1, then one
    /// pass per power of two within the resolution, with jumps that halve
    /// down to 1. Each pass reads the grid the pass before wrote.
    pub fn jump_flood(self, max_resolution: i32) -> (flooded: VoxelGrid)
        requires
            self.wf(),
            max_resolution >= 1,
        ensures
            flooded.wf(),
            flooded.dimensions@ == self.dimensions@,
            flooded.cells@ == spec_flood(
                self.dimensions@,
                self.cells@,
                spec_floor_log2(max_resolution as int),
                spec_floor_log2(max_resolution as int),
            ),
    {
        let steps = floor_log2(max_resolution);
        let mut read = self.flood_pass(1);
        let mut level: u32 = 0;
        while level < steps
            invariant
                level <= steps <= 30,
                read.wf(),
                read.dimensions@ == self.dimensions@,
                read.cells@ == spec_flood(
                    self.dimensions@,
                    self.cells@,
                    steps as nat,
                    level as nat,
                ),
            decreases steps - level,
        {
            level = level + 1;
            let jump = power_of_two(steps - level);
            let write = read.flood_pass(jump);
            read = write;
        }
        read
    }
}

} // verus!
