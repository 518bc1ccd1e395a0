//! Grid estimator: voxel counts per axis from the extents of the padded box.

use vstd::prelude::*;

verus! {

/// One length unit of the world, as the integer this crate counts extents in.
pub const SIZE_UNIT: u64 = 65536;

/// A coordinate axis, in tie-break order.
#[derive(Clone, Copy, Debug, PartialEq, Eq, Structural)]
pub enum Axis {
    X,
    Y,
    Z,
}

impl Axis {
    /// Position of the axis in a 3-vector.
    pub open spec fn spec_index(self) -> int {
        match self {
            Axis::X => 0,
            Axis::Y => 1,
            Axis::Z => 2,
        }
    }

    /// Position of the axis in a 3-vector.
    pub fn index(self) -> (i: usize)
        ensures
            i == self.spec_index(),
    {
        match self {
            Axis::X => 0,
            Axis::Y => 1,
            Axis::Z => 2,
        }
    }
}

/// The largest of three extents.
pub open spec fn spec_max_extent(size: Seq<u64>) -> int
    recommends
        size.len() == 3,
{
    let a = size[0] as int;
    let b = size[1] as int;
    let c = size[2] as int;
    if a >= b && a >= c {
        a
    } else if b >= c {
        b
    } else {
        c
    }
}

/// The axis that carries the largest extent; of equal extents the first in
/// the order X, Y, Z.
pub open spec fn spec_reference_axis(size: Seq<u64>) -> Axis
    recommends
        size.len() == 3,
{
    let m = spec_max_extent(size);
    if m == size[0] {
        Axis::X
    } else if m == size[1] {
        Axis::Y
    } else {
        Axis::Z
    }
}

/// `resolution * extent / max_extent` rounded to the nearest integer, halves
/// upwards.
pub open spec fn spec_round_ratio(resolution: int, extent: int, max_extent: int) -> int {
    (2 * resolution * extent + max_extent) / (2 * max_extent)
}

/// `resolution * extent / max_extent` rounded up.
pub open spec fn spec_ceil_ratio(resolution: int, extent: int, max_extent: int) -> int {
    (resolution * extent + max_extent - 1) / max_extent
}

/// Voxel count along one axis: the rounded ratio on the reference axis, the
/// ratio rounded up on the others, and never less than one voxel. A box
/// without extent gets one voxel.
pub open spec fn spec_axis_dimension(
    resolution: int,
    extent: int,
    max_extent: int,
    is_reference: bool,
) -> int {
    if max_extent <= 0 {
        1
    } else {
        let raw = if is_reference {
            spec_round_ratio(resolution, extent, max_extent)
        } else {
            spec_ceil_ratio(resolution, extent, max_extent)
        };
        if raw < 1 {
            1
        } else {
            raw
        }
    }
}

/// The voxel grid for a box with the given extents at the given resolution.
pub open spec fn spec_grid_size(size: Seq<u64>, max_resolution: i32) -> Seq<u32>
    recommends
        size.len() == 3,
{
    let m = spec_max_extent(size);
    let r = spec_reference_axis(size);
    seq![
        spec_axis_dimension(max_resolution as int, size[0] as int, m, r == Axis::X) as u32,
        spec_axis_dimension(max_resolution as int, size[1] as int, m, r == Axis::Y) as u32,
        spec_axis_dimension(max_resolution as int, size[2] as int, m, r == Axis::Z) as u32,
    ]
}

/// The largest of the three extents.
pub fn max_extent(size: &[u64; 3]) -> (m: u64)
    ensures
        m == spec_max_extent(size@),
        m >= size[0],
        m >= size[1],
        m >= size[2],
{
    let a = size[0];
    let b = size[1];
    let c = size[2];
    if a >= b && a >= c {
        a
    } else if b >= c {
        b
    } else {
        c
    }
}

/// The axis whose voxel count is rounded to nearest: the one with the largest
/// extent, X before Y before Z where extents are equal.
pub fn reference_axis(size: &[u64; 3]) -> (axis: Axis)
    ensures
        axis == spec_reference_axis(size@),
        size[axis.spec_index()] == spec_max_extent(size@),
        forall|i: int| 0 <= i < axis.spec_index() ==> #[trigger] size@[i] < size@[axis.spec_index()],
{
    let m = max_extent(size);
    if m == size[0] {
        Axis::X
    } else if m == size[1] {
        Axis::Y
    } else {
        Axis::Z
    }
}

/// On the reference axis the rounded ratio is the resolution itself.
pub proof fn lemma_round_ratio_of_max(resolution: int, max_extent: int)
    requires
        max_extent > 0,
    ensures
        spec_round_ratio(resolution, max_extent, max_extent) == resolution,
{
    let d = 2 * max_extent;
    assert(2 * resolution * max_extent + max_extent == resolution * d + max_extent) by (nonlinear_arith)
        requires
            d == 2 * max_extent,
    ;
    vstd::arithmetic::div_mod::lemma_fundamental_div_mod_converse(
        resolution * d + max_extent,
        d,
        resolution,
        max_extent,
    );
}

/// The ratio rounded up is at most the resolution, and at least one where the
/// resolution is.
pub proof fn lemma_ceil_ratio_bounds(resolution: int, extent: int, max_extent: int)
    requires
        0 <= extent <= max_extent,
        max_extent > 0,
        resolution >= 0,
    ensures
        0 <= spec_ceil_ratio(resolution, extent, max_extent) <= resolution,
        spec_ceil_ratio(resolution, extent, max_extent) * max_extent >= resolution * extent,
        (spec_ceil_ratio(resolution, extent, max_extent) - 1) * max_extent < resolution * extent,
{
    let n = resolution * extent + max_extent - 1;
    let q = n / max_extent;
    assert(0 <= resolution * extent <= resolution * max_extent) by (nonlinear_arith)
        requires
            0 <= extent <= max_extent,
            resolution >= 0,
    ;
    vstd::arithmetic::div_mod::lemma_fundamental_div_mod(n, max_extent);
    vstd::arithmetic::div_mod::lemma_mod_bound(n, max_extent);
    assert(n == max_extent * q + n % max_extent);
    assert(q <= resolution) by (nonlinear_arith)
        requires
            n == max_extent * q + n % max_extent,
            0 <= n % max_extent < max_extent,
            n <= resolution * max_extent + max_extent - 1,
            max_extent > 0,
    ;
    assert(q >= 0) by (nonlinear_arith)
        requires
            n == max_extent * q + n % max_extent,
            0 <= n % max_extent < max_extent,
            n >= 0,
            max_extent > 0,
    ;
    assert(q * max_extent == max_extent * q) by (nonlinear_arith);
    assert((q - 1) * max_extent == max_extent * q - max_extent) by (nonlinear_arith);
}

/// Voxel count along one axis.
fn axis_dimension(max_resolution: i32, extent: u64, max_extent: u64, is_reference: bool) -> (d: u32)
    requires
        extent <= max_extent,
        is_reference ==> extent == max_extent,
    ensures
        d == spec_axis_dimension(max_resolution as int, extent as int, max_extent as int, is_reference),
        d >= 1,
        max_resolution >= 1 ==> d <= max_resolution,
        max_resolution >= 1 && is_reference && max_extent > 0 ==> d == max_resolution,
{
    if max_extent == 0 {
        return 1;
    }
    if max_resolution < 1 {
        proof {
            let r = max_resolution as int;
            let e = extent as int;
            let m = max_extent as int;
            assert(r * e <= 0) by (nonlinear_arith)
                requires
                    r <= 0,
                    e >= 0,
            ;
            if is_reference {
                assert(2 * r * e + m < 2 * m) by (nonlinear_arith)
                    requires
                        r <= 0,
                        e == m,
                        m > 0,
                ;
                vstd::arithmetic::div_mod::lemma_div_is_ordered(2 * r * e + m, 2 * m - 1, 2 * m);
                vstd::arithmetic::div_mod::lemma_basic_div(2 * m - 1, 2 * m);
            } else {
                vstd::arithmetic::div_mod::lemma_div_is_ordered(r * e + m - 1, m - 1, m);
                vstd::arithmetic::div_mod::lemma_basic_div(m - 1, m);
            }
        }
        return 1;
    }
    if is_reference {
        proof {
            lemma_round_ratio_of_max(max_resolution as int, max_extent as int);
        }
        return max_resolution as u32;
    }
    proof {
        lemma_ceil_ratio_bounds(max_resolution as int, extent as int, max_extent as int);
        assert(max_resolution * extent <= 0x7fff_ffff * 0xffff_ffff_ffff_ffff) by (nonlinear_arith)
            requires
                0 <= max_resolution <= 0x7fff_ffff,
                0 <= extent <= 0xffff_ffff_ffff_ffff,
        ;
    }
    let scaled: u128 = (max_resolution as u128) * (extent as u128);
    let raw: u128 = (scaled + (max_extent as u128 - 1)) / (max_extent as u128);
    if raw < 1 {
        1
    } else {
        raw as u32
    }
}

/// The voxel grid for a box of the given extents: the longest axis gets
/// `max_resolution` voxels, the others as many voxels of the same size as it
/// takes to cover them, and no axis fewer than one.
pub fn estimate_grid_size(size: &[u64; 3], max_resolution: i32) -> (dimensions: [u32; 3])
    ensures
        dimensions@ == spec_grid_size(size@, max_resolution),
        forall|i: int| 0 <= i < 3 ==> #[trigger] dimensions@[i] >= 1,
        max_resolution >= 1 ==> forall|i: int| 0 <= i < 3 ==> #[trigger] dimensions@[i] <= max_resolution,
        max_resolution >= 1 && spec_max_extent(size@) > 0 ==> dimensions@[spec_reference_axis(
            size@,
        ).spec_index()] == max_resolution,
{
    let m = max_extent(size);
    let r = reference_axis(size);
    let x = axis_dimension(max_resolution, size[0], m, r == Axis::X);
    let y = axis_dimension(max_resolution, size[1], m, r == Axis::Y);
    let z = axis_dimension(max_resolution, size[2], m, r == Axis::Z);
    let dimensions = [x, y, z];
    assert(dimensions@ =~= spec_grid_size(size@, max_resolution));
    dimensions
}

/// The snapped box covers the desired one. With voxels whose edge is the
/// largest extent divided by the voxel count of the reference axis, the
/// reference axis is exactly as long as the largest extent, and every axis
/// is at least as long as its extent.
pub proof fn lemma_snapped_box_covers(
    dimensions: Seq<u32>,
    extents: Seq<u64>,
    max_resolution: i32,
    axis: int,
)
    requires
        extents.len() == 3,
        dimensions == spec_grid_size(extents, max_resolution),
        max_resolution >= 1,
        spec_max_extent(extents) > 0,
        0 <= axis < 3,
    ensures
        dimensions[spec_reference_axis(extents).spec_index()] == max_resolution,
        dimensions[axis] * spec_max_extent(extents) >= extents[axis] * max_resolution,
        dimensions[axis] >= 1,
{
    let m = spec_max_extent(extents);
    let r = max_resolution as int;
    let e = extents[axis] as int;
    lemma_round_ratio_of_max(r, m);
    lemma_ceil_ratio_bounds(r, e, m);
    let reference = spec_reference_axis(extents).spec_index();
    if axis == reference {
        assert(dimensions[axis] == r);
        assert(r * m >= e * r) by (nonlinear_arith)
            requires
                e == m,
        ;
    } else {
        let up = spec_ceil_ratio(r, e, m);
        assert(dimensions[axis] == (if up < 1 {
            1
        } else {
            up
        }));
        assert(dimensions[axis] * m >= up * m) by (nonlinear_arith)
            requires
                dimensions[axis] >= up,
                m > 0,
        ;
        assert(r * e == e * r) by (nonlinear_arith);
    }
}

} // verus!
