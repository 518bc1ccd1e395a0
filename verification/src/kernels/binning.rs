//! The compacted triangle list: for every voxel the triangles that cover
//! it, as one run in a shared list. It is built in two passes over the
//! same coverage, with the scan between them: count per voxel, turn the
//! counts into the offsets of the runs, then write every triangle at the
//! next free place of the run of each voxel it covers.

use vstd::prelude::*;
use crate::kernels::scan::{
    lemma_scan_exact, lemma_sum_nonnegative, lemma_sum_split, prefix_sum,
    spec_exclusive_scan, spec_sum, used_count,
};

verus! {

/// One hit of the rasterizer: a triangle covers a voxel.
#[derive(Clone, Copy, Debug, PartialEq, Eq, Structural)]
pub struct Incidence {
    pub triangle: u32,
    /// The place of the voxel in the grid, rows along X, then Y, then Z.
    pub voxel: u32,
}

/// The compacted list: `triangles` holds the run of voxel `v` at
/// `offsets[v]`, `counts[v]` entries long.
#[derive(Clone, Debug, PartialEq, Eq)]
pub struct TriangleList {
    pub offsets: Vec<u32>,
    pub counts: Vec<u32>,
    pub triangles: Vec<u32>,
}

/// The triangles that cover a voxel, in the order of the coverage.
pub open spec fn spec_run(coverage: Seq<Incidence>, voxel: int) -> Seq<u32>
    decreases coverage.len(),
{
    if coverage.len() == 0 {
        Seq::empty()
    } else {
        let before = spec_run(coverage.drop_last(), voxel);
        if coverage.last().voxel == voxel {
            before.push(coverage.last().triangle)
        } else {
            before
        }
    }
}

/// The number of hits on the voxels of a grid.
pub open spec fn spec_hits(coverage: Seq<Incidence>, num_of_voxels: int) -> int
    decreases coverage.len(),
{
    if coverage.len() == 0 {
        0
    } else {
        spec_hits(coverage.drop_last(), num_of_voxels) + (if coverage.last().voxel < num_of_voxels {
            1int
        } else {
            0int
        })
    }
}

/// The per-voxel counts of a coverage.
pub open spec fn spec_counts(coverage: Seq<Incidence>, num_of_voxels: int) -> Seq<u32> {
    Seq::new(num_of_voxels as nat, |v: int| spec_run(coverage, v).len() as u32)
}

/// A voxel's run never shrinks as the coverage goes on, and grows with
/// every hit on the voxel.
pub proof fn lemma_run_grows(coverage: Seq<Incidence>, k: int, voxel: int)
    requires
        0 <= k <= coverage.len(),
    ensures
        spec_run(coverage.take(k), voxel).len() <= spec_run(coverage, voxel).len(),
        spec_run(coverage.take(k), voxel).len() <= k,
        k < coverage.len() && coverage[k].voxel == voxel ==> spec_run(coverage.take(k), voxel).len()
            < spec_run(coverage, voxel).len(),
    decreases coverage.len() - k,
{
    lemma_run_short(coverage.take(k), voxel);
    if k == coverage.len() {
        assert(coverage.take(k) =~= coverage);
    } else {
        lemma_run_grows(coverage, k + 1, voxel);
        assert(coverage.take(k + 1).drop_last() =~= coverage.take(k));
        assert(coverage.take(k + 1).last() == coverage[k]);
    }
}

/// A voxel's run is at most as long as the coverage.
pub proof fn lemma_run_short(coverage: Seq<Incidence>, voxel: int)
    ensures
        spec_run(coverage, voxel).len() <= coverage.len(),
    decreases coverage.len(),
{
    if coverage.len() > 0 {
        lemma_run_short(coverage.drop_last(), voxel);
    }
}

/// Raising one counter by one raises every sum over it by one and leaves
/// the others as they are.
pub proof fn lemma_sum_raise(counts: Seq<u32>, raised: Seq<u32>, at: int, from: int, to: int)
    requires
        0 <= from <= to <= counts.len(),
        raised.len() == counts.len(),
        0 <= at < counts.len(),
        raised[at] == counts[at] + 1,
        forall|i: int| 0 <= i < counts.len() && i != at ==> raised[i] == counts[i],
    ensures
        spec_sum(raised, from, to) == spec_sum(counts, from, to) + (if from <= at < to {
            1int
        } else {
            0int
        }),
    decreases to - from,
{
    if to > from {
        lemma_sum_raise(counts, raised, at, from, to - 1);
    }
}

/// The counting pass: for every voxel the number of triangles that cover
/// it. Hits outside the grid count for nothing.
pub fn count_coverage(coverage: &Vec<Incidence>, num_of_voxels: usize) -> (counts: Vec<u32>)
    requires
        coverage@.len() <= u32::MAX,
    ensures
        counts@ == spec_counts(coverage@, num_of_voxels as int),
        spec_sum(counts@, 0, num_of_voxels as int) == spec_hits(coverage@, num_of_voxels as int),
        spec_hits(coverage@, num_of_voxels as int) <= coverage@.len(),
{
    let mut counts: Vec<u32> = Vec::new();
    let mut v: usize = 0;
    while v < num_of_voxels
        invariant
            v <= num_of_voxels,
            counts@.len() == v,
            forall|w: int| 0 <= w < v ==> counts@[w] == 0,
        decreases num_of_voxels - v,
    {
        counts.push(0);
        v = v + 1;
    }
    proof {
        lemma_sum_zero(counts@, num_of_voxels as int);
        assert(coverage@.take(0) =~= Seq::<Incidence>::empty());
    }
    let mut k: usize = 0;
    while k < coverage.len()
        invariant
            k <= coverage@.len() <= u32::MAX,
            counts@.len() == num_of_voxels,
            forall|w: int|
                0 <= w < num_of_voxels ==> counts@[w] == spec_run(coverage@.take(k as int), w).len(),
            spec_sum(counts@, 0, num_of_voxels as int) == spec_hits(
                coverage@.take(k as int),
                num_of_voxels as int,
            ),
            spec_hits(coverage@.take(k as int), num_of_voxels as int) <= k,
        decreases coverage@.len() - k,
    {
        let hit = coverage[k];
        let ghost before = counts@;
        proof {
            assert(coverage@.take(k + 1).drop_last() =~= coverage@.take(k as int));
            assert(coverage@.take(k + 1).last() == hit);
        }
        if (hit.voxel as usize) < num_of_voxels {
            proof {
                lemma_run_grows(coverage@, k as int, hit.voxel as int);
                lemma_run_short(coverage@, hit.voxel as int);
            }
            let count = counts[hit.voxel as usize];
            counts.set(hit.voxel as usize, count + 1);
            proof {
                lemma_sum_raise(before, counts@, hit.voxel as int, 0, num_of_voxels as int);
            }
        }
        k = k + 1;
    }
    proof {
        assert(coverage@.take(k as int) =~= coverage@);
        assert(counts@ =~= spec_counts(coverage@, num_of_voxels as int));
    }
    counts
}

/// A sum of zeros is zero.
pub proof fn lemma_sum_zero(counts: Seq<u32>, to: int)
    requires
        0 <= to <= counts.len(),
        forall|i: int| 0 <= i < to ==> counts[i] == 0,
    ensures
        spec_sum(counts, 0, to) == 0,
    decreases to,
{
    if to > 0 {
        lemma_sum_zero(counts, to - 1);
    }
}

/// Where the counters add up to what 32 bits hold, the runs lie one after
/// the other: a run ends where the next begins or before, and all end
/// within the total.
pub proof fn lemma_runs_apart(counts: Seq<u32>, v: int, w: int)
    requires
        spec_sum(counts, 0, counts.len() as int) <= u32::MAX,
        0 <= v < w < counts.len(),
    ensures
        spec_exclusive_scan(counts)[v] + counts[v] <= spec_exclusive_scan(counts)[w],
        spec_exclusive_scan(counts)[w] + counts[w] <= spec_sum(counts, 0, counts.len() as int),
        spec_exclusive_scan(counts)[v] == spec_sum(counts, 0, v),
        spec_exclusive_scan(counts)[w] == spec_sum(counts, 0, w),
{
    let n = counts.len() as int;
    lemma_scan_exact(counts, v, w);
    lemma_scan_exact(counts, v, v);
    lemma_sum_split(counts, 0, v + 1, w);
    lemma_sum_split(counts, 0, v, v + 1);
    lemma_sum_nonnegative(counts, v + 1, w);
    lemma_sum_split(counts, 0, w + 1, n);
    lemma_sum_split(counts, 0, w, w + 1);
    lemma_sum_nonnegative(counts, w + 1, n);
    assert(spec_sum(counts, v, v + 1) == counts[v]) by {
        assert(spec_sum(counts, v, v) == 0);
    }
    assert(spec_sum(counts, w, w + 1) == counts[w]) by {
        assert(spec_sum(counts, w, w) == 0);
    }
}

/// The run of a voxel in a list of triangles: the `counts[voxel]` entries
/// from `offsets[voxel]` on.
pub open spec fn spec_run_of(triangles: Seq<u32>, offsets: Seq<u32>, counts: Seq<u32>, voxel: int) -> Seq<
    u32,
> {
    triangles.subrange(offsets[voxel] as int, offsets[voxel] + counts[voxel])
}

impl TriangleList {
    /// The run of a voxel.
    pub open spec fn spec_list(&self, voxel: int) -> Seq<u32> {
        spec_run_of(self.triangles@, self.offsets@, self.counts@, voxel)
    }

    /// Whether the list is the compacted list of a coverage: the counts are
    /// those of the coverage, the offsets are their exclusive scan, and
    /// the run of every voxel holds the triangles that cover it.
    pub open spec fn holds(&self, coverage: Seq<Incidence>, num_of_voxels: int) -> bool {
        &&& self.counts@ == spec_counts(coverage, num_of_voxels)
        &&& self.offsets@ == spec_exclusive_scan(self.counts@)
        &&& self.triangles@.len() == spec_hits(coverage, num_of_voxels)
        &&& forall|v: int|
            0 <= v < num_of_voxels ==> (#[trigger] self.offsets@[v]) + self.counts@[v]
                <= self.triangles@.len()
        &&& forall|v: int|
            0 <= v < num_of_voxels ==> #[trigger] self.spec_list(v) == spec_run(coverage, v)
    }

    /// The triangles that cover a voxel.
    pub fn list(&self, voxel: usize) -> (run: Vec<u32>)
        requires
            voxel < self.offsets@.len(),
            voxel < self.counts@.len(),
            self.offsets@[voxel as int] + self.counts@[voxel as int] <= self.triangles@.len(),
        ensures
            run@ == self.spec_list(voxel as int),
            run@ == self.triangles@.subrange(
                self.offsets@[voxel as int] as int,
                self.offsets@[voxel as int] + self.counts@[voxel as int],
            ),
    {
        let start = self.offsets[voxel] as usize;
        let count = self.counts[voxel] as usize;
        let len = self.triangles.len();
        let mut run: Vec<u32> = Vec::new();
        let mut j: usize = 0;
        assert(self.triangles@.subrange(start as int, start as int) =~= Seq::<u32>::empty());
        while j < count
            invariant
                j <= count,
                len == self.triangles@.len(),
                start + count <= len,
                run@ == self.triangles@.subrange(start as int, start + j),
            decreases count - j,
        {
            run.push(self.triangles[start + j]);
            proof {
                assert(self.triangles@.subrange(start as int, start + j + 1)
                    =~= self.triangles@.subrange(start as int, start + j).push(
                    self.triangles@[start + j],
                ));
            }
            j = j + 1;
        }
        run
    }
}

/// The scattering pass: every hit writes its triangle at the next free
/// place of the run of its voxel.
pub fn scatter(coverage: &Vec<Incidence>, counts: &Vec<u32>, offsets: &Vec<u32>, total: u32) -> (triangles:
    Vec<u32>)
    requires
        coverage@.len() <= u32::MAX,
        counts@ == spec_counts(coverage@, counts@.len() as int),
        offsets@ == spec_exclusive_scan(counts@),
        total == spec_sum(counts@, 0, counts@.len() as int),
    ensures
        triangles@.len() == total,
        forall|v: int| 0 <= v < counts@.len() ==> (#[trigger] offsets@[v]) + counts@[v] <= total,
        forall|v: int|
            0 <= v < counts@.len() ==> #[trigger] spec_run_of(triangles@, offsets@, counts@, v)
                == spec_run(coverage@, v),
{
    let n = counts.len();
    let mut triangles: Vec<u32> = Vec::new();
    let mut i: u32 = 0;
    while i < total
        invariant
            i <= total,
            triangles@.len() == i,
        decreases total - i,
    {
        triangles.push(0);
        i = i + 1;
    }
    let mut filled: Vec<u32> = Vec::new();
    let mut v: usize = 0;
    while v < n
        invariant
            v <= n,
            filled@.len() == v,
            forall|w: int| 0 <= w < v ==> filled@[w] == 0,
        decreases n - v,
    {
        filled.push(0);
        v = v + 1;
    }
    proof {
        assert(coverage@.take(0) =~= Seq::<Incidence>::empty());
    }
    let mut k: usize = 0;
    while k < coverage.len()
        invariant
            k <= coverage@.len() <= u32::MAX,
            n == counts@.len(),
            filled@.len() == n,
            triangles@.len() == total,
            counts@ == spec_counts(coverage@, n as int),
            offsets@ == spec_exclusive_scan(counts@),
            total == spec_sum(counts@, 0, n as int),
            forall|w: int| 0 <= w < n ==> filled@[w] == spec_run(coverage@.take(k as int), w).len(),
            forall|w: int, j: int|
                0 <= w < n && 0 <= j < spec_run(coverage@.take(k as int), w).len()
                    ==> triangles@[offsets@[w] + j] == #[trigger] spec_run(
                    coverage@.take(k as int),
                    w,
                )[j],
        decreases coverage@.len() - k,
    {
        let hit = coverage[k];
        proof {
            assert(coverage@.take(k + 1).drop_last() =~= coverage@.take(k as int));
            assert(coverage@.take(k + 1).last() == hit);
        }
        if (hit.voxel as usize) < n {
            let voxel = hit.voxel as usize;
            let ghost before = triangles@;
            let ghost v = voxel as int;
            let ghost own = spec_run(coverage@.take(k as int), v).len() as int;
            proof {
                lemma_run_grows(coverage@, k as int, v);
                lemma_run_short(coverage@, v);
                assert(counts@[v] == spec_run(coverage@, v).len());
                assert(filled@[v] == own);
                lemma_scan_exact(counts@, v, v);
                if v + 1 < n {
                    lemma_runs_apart(counts@, v, n - 1);
                    lemma_sum_split(counts@, 0, v + 1, n as int);
                    lemma_sum_nonnegative(counts@, v + 1, n as int);
                }
                lemma_sum_split(counts@, 0, v, v + 1);
                assert(spec_sum(counts@, v, v) == 0);
                assert(offsets@[v] + counts@[v] <= total);
            }
            let slot = offsets[voxel] + filled[voxel];
            triangles.set(slot as usize, hit.triangle);
            filled.set(voxel, filled[voxel] + 1);
            proof {
                assert forall|w: int, j: int|
                    0 <= w < n && 0 <= j < spec_run(coverage@.take(k + 1), w).len()
                        implies triangles@[offsets@[w] + j] == #[trigger] spec_run(
                        coverage@.take(k + 1),
                        w,
                    )[j] by {
                    lemma_run_grows(coverage@, k as int, w);
                    lemma_run_grows(coverage@, k + 1, w);
                    lemma_run_short(coverage@, w);
                    assert(counts@[w] == spec_run(coverage@, w).len());
                    if w == v {
                        if j < own {
                            assert(before[offsets@[w] + j] == spec_run(coverage@.take(k as int), w)[j]);
                        }
                    } else {
                        if w < v {
                            lemma_runs_apart(counts@, w, v);
                        } else {
                            lemma_runs_apart(counts@, v, w);
                        }
                        assert(before[offsets@[w] + j] == spec_run(coverage@.take(k as int), w)[j]);
                    }
                }
                assert forall|w: int| 0 <= w < n implies filled@[w] == spec_run(
                    coverage@.take(k + 1),
                    w,
                ).len() by {
                    if w != v {
                        assert(spec_run(coverage@.take(k + 1), w) == spec_run(
                            coverage@.take(k as int),
                            w,
                        ));
                    }
                }
            }
        } else {
            proof {
                assert forall|w: int| 0 <= w < n implies spec_run(coverage@.take(k + 1), w)
                    == spec_run(coverage@.take(k as int), w) by {}
                assert forall|w: int, j: int|
                    0 <= w < n && 0 <= j < spec_run(coverage@.take(k + 1), w).len()
                        implies triangles@[offsets@[w] + j] == #[trigger] spec_run(
                        coverage@.take(k + 1),
                        w,
                    )[j] by {
                    assert(spec_run(coverage@.take(k + 1), w) == spec_run(
                        coverage@.take(k as int),
                        w,
                    ));
                    assert(triangles@[offsets@[w] + j] == spec_run(coverage@.take(k as int), w)[j]);
                }
            }
        }
        k = k + 1;
    }
    proof {
        assert(coverage@.take(k as int) =~= coverage@);
        assert forall|v: int| 0 <= v < counts@.len() implies (#[trigger] offsets@[v]) + counts@[v]
            <= total && spec_run_of(triangles@, offsets@, counts@, v) == spec_run(coverage@, v) by {
            lemma_scan_exact(counts@, v, v);
            if v + 1 < n {
                lemma_runs_apart(counts@, v, n - 1);
                lemma_sum_split(counts@, 0, v + 1, n as int);
                lemma_sum_nonnegative(counts@, v + 1, n as int);
            }
            lemma_sum_split(counts@, 0, v, v + 1);
            assert(spec_sum(counts@, v, v) == 0);
            let run = spec_run(coverage@, v);
            lemma_run_short(coverage@, v);
            assert(counts@[v] == run.len());
            let part = triangles@.subrange(offsets@[v] as int, offsets@[v] + counts@[v]);
            assert(part.len() == run.len());
            assert forall|j: int| 0 <= j < run.len() implies part[j] == run[j] by {
                assert(triangles@[offsets@[v] + j] == run[j]);
            }
            assert(part =~= run);
        }
    }
    triangles
}

/// Builds the compacted triangle list of a coverage on a grid of
/// `num_of_voxels` voxels: count, scan, scatter. Gives no list where the
/// hits on the grid are more than the list has room for.
pub fn bin_triangles(coverage: &Vec<Incidence>, num_of_voxels: usize, upper_bound_count: u32) -> (list:
    Option<TriangleList>)
    requires
        coverage@.len() <= u32::MAX,
    ensures
        list is Some <==> spec_hits(coverage@, num_of_voxels as int) <= upper_bound_count,
        list is Some ==> list->0.holds(coverage@, num_of_voxels as int),
{
    let counts = count_coverage(coverage, num_of_voxels);
    let offsets = prefix_sum(&counts);
    let total = used_count(&counts, &offsets);
    proof {
        lemma_sum_nonnegative(counts@, 0, num_of_voxels as int);
        crate::kernels::scan::lemma_wrap_small(spec_sum(counts@, 0, num_of_voxels as int));
    }
    if total > upper_bound_count {
        return None;
    }
    let triangles = scatter(coverage, &counts, &offsets, total);
    let list = TriangleList { offsets, counts, triangles };
    proof {
        assert(list.counts@ == spec_counts(coverage@, num_of_voxels as int));
        assert(list.offsets@ == spec_exclusive_scan(list.counts@));
        assert(list.triangles@.len() == spec_hits(coverage@, num_of_voxels as int));
        assert forall|v: int| 0 <= v < num_of_voxels implies #[trigger] list.spec_list(v)
            == spec_run(coverage@, v) by {
            assert(spec_run_of(list.triangles@, list.offsets@, list.counts@, v) == spec_run(
                coverage@,
                v,
            ));
        }
    }
    Some(list)
}

} // verus!
