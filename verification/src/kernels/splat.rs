//! The splatting of distances for the unsigned field. The field starts at
//! a distance beyond every real one; every splat lowers one voxel to its
//! distance where that is less than what the voxel holds. Distances are
//! compared as unsigned 32-bit keys, which keep the order of the
//! non-negative distances they stand for.

use vstd::prelude::*;

verus! {

/// One distance offered to one voxel.
#[derive(Clone, Copy, Debug, PartialEq, Eq, Structural)]
pub struct Splat {
    /// The place of the voxel in the grid.
    pub voxel: u32,
    pub distance: u32,
}

/// The lesser of two distances.
pub open spec fn spec_min(a: u32, b: u32) -> u32 {
    if b < a {
        b
    } else {
        a
    }
}

/// What a voxel holds after the splats, having held `start` before: the
/// least of `start` and the distances the splats offer to it.
pub open spec fn spec_lowest(splats: Seq<Splat>, voxel: int, start: u32) -> u32
    decreases splats.len(),
{
    if splats.len() == 0 {
        start
    } else {
        let before = spec_lowest(splats.drop_last(), voxel, start);
        if splats.last().voxel == voxel {
            spec_min(before, splats.last().distance)
        } else {
            before
        }
    }
}

/// Distances never increase: after the splats a voxel holds at most what it
/// held before, at most every distance that was offered to it, and one of
/// these.
pub proof fn lemma_lowest_is_least(splats: Seq<Splat>, voxel: int, start: u32, k: int)
    requires
        0 <= k < splats.len(),
    ensures
        spec_lowest(splats, voxel, start) <= start,
        splats[k].voxel == voxel ==> spec_lowest(splats, voxel, start) <= splats[k].distance,
        spec_lowest(splats, voxel, start) == start || exists|j: int|
            0 <= j < splats.len() && (#[trigger] splats[j]).voxel == voxel && splats[j].distance
                == spec_lowest(splats, voxel, start),
    decreases splats.len(),
{
    let before = splats.drop_last();
    let last = splats.len() - 1;
    if before.len() > 0 {
        lemma_lowest_is_least(before, voxel, start, if k < last { k } else { 0 });
        let low = spec_lowest(before, voxel, start);
        if spec_lowest(splats, voxel, start) == low && low != start {
            let j = choose|j: int|
                0 <= j < before.len() && (#[trigger] before[j]).voxel == voxel && before[j].distance
                    == low;
            assert(splats[j] == before[j]);
        }
    }
    if spec_lowest(splats, voxel, start) != spec_lowest(before, voxel, start) {
        assert(splats[last].voxel == voxel);
    }
}

/// Splatting in two rounds is splatting all at once.
pub proof fn lemma_lowest_concat(first: Seq<Splat>, second: Seq<Splat>, voxel: int, start: u32)
    ensures
        spec_lowest(first + second, voxel, start) == spec_lowest(
            second,
            voxel,
            spec_lowest(first, voxel, start),
        ),
    decreases second.len(),
{
    if second.len() == 0 {
        assert(first + second =~= first);
    } else {
        assert((first + second).drop_last() =~= first + second.drop_last());
        assert((first + second).last() == second.last());
        lemma_lowest_concat(first, second.drop_last(), voxel, start);
    }
}

/// What a voxel holds after the splats is the lesser of what it held before
/// and what the splats alone leave of the greatest distance.
pub proof fn lemma_lowest_from(splats: Seq<Splat>, voxel: int, start: u32)
    ensures
        spec_lowest(splats, voxel, start) == spec_min(start, spec_lowest(splats, voxel, u32::MAX)),
    decreases splats.len(),
{
    if splats.len() > 0 {
        lemma_lowest_from(splats.drop_last(), voxel, start);
    }
}

/// The order of the splats does not matter: two rounds of splats leave the
/// same in every voxel whichever comes first.
pub proof fn lemma_lowest_any_order(first: Seq<Splat>, second: Seq<Splat>, voxel: int, start: u32)
    ensures
        spec_lowest(first + second, voxel, start) == spec_lowest(second + first, voxel, start),
{
    lemma_lowest_concat(first, second, voxel, start);
    lemma_lowest_concat(second, first, voxel, start);
    lemma_lowest_from(first, voxel, start);
    lemma_lowest_from(second, voxel, start);
    lemma_lowest_from(second, voxel, spec_lowest(first, voxel, start));
    lemma_lowest_from(first, voxel, spec_lowest(second, voxel, start));
}

/// The field before any splat: every voxel at the initial distance.
pub fn initialize(num_of_voxels: usize, initial_distance: u32) -> (field: Vec<u32>)
    ensures
        field@.len() == num_of_voxels,
        forall|v: int| 0 <= v < num_of_voxels ==> field@[v] == initial_distance,
{
    let mut field: Vec<u32> = Vec::new();
    let mut v: usize = 0;
    while v < num_of_voxels
        invariant
            v <= num_of_voxels,
            field@.len() == v,
            forall|w: int| 0 <= w < v ==> field@[w] == initial_distance,
        decreases num_of_voxels - v,
    {
        field.push(initial_distance);
        v = v + 1;
    }
    field
}

/// Lowers every voxel to the least distance the splats offer to it, where
/// that is less than what it holds. Splats on voxels outside the field are
/// passed over.
pub fn splat_distances(field: &mut Vec<u32>, splats: &Vec<Splat>)
    ensures
        final(field)@.len() == old(field)@.len(),
        forall|v: int|
            0 <= v < old(field)@.len() ==> final(field)@[v] == spec_lowest(
                splats@,
                v,
                old(field)@[v],
            ),
{
    let n = field.len();
    let mut k: usize = 0;
    proof {
        assert(splats@.take(0) =~= Seq::<Splat>::empty());
    }
    while k < splats.len()
        invariant
            k <= splats@.len(),
            n == old(field)@.len(),
            field@.len() == n,
            forall|v: int|
                0 <= v < n ==> field@[v] == spec_lowest(splats@.take(k as int), v, old(field)@[v]),
        decreases splats@.len() - k,
    {
        let splat = splats[k];
        proof {
            assert(splats@.take(k + 1).drop_last() =~= splats@.take(k as int));
            assert(splats@.take(k + 1).last() == splat);
        }
        if (splat.voxel as usize) < n {
            let held = field[splat.voxel as usize];
            if splat.distance < held {
                field.set(splat.voxel as usize, splat.distance);
            }
        }
        k = k + 1;
    }
    proof {
        assert(splats@.take(k as int) =~= splats@);
    }
}

/// Brings the field into its final form: no voxel farther than the greatest
/// distance.
pub fn finalize(field: &mut Vec<u32>, max_distance: u32)
    ensures
        final(field)@.len() == old(field)@.len(),
        forall|v: int|
            0 <= v < old(field)@.len() ==> final(field)@[v] == spec_min(old(field)@[v], max_distance),
{
    let n = field.len();
    let mut v: usize = 0;
    while v < n
        invariant
            v <= n,
            n == old(field)@.len(),
            field@.len() == n,
            forall|w: int| 0 <= w < v ==> field@[w] == spec_min(old(field)@[w], max_distance),
            forall|w: int| v <= w < n ==> field@[w] == old(field)@[w],
        decreases n - v,
    {
        if max_distance < field[v] {
            field.set(v, max_distance);
        }
        v = v + 1;
    }
}

} // verus!
