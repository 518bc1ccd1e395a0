//! The prefix-sum engine: an exclusive scan over 32-bit counters, done in
//! blocks. One pass scans inside each block, the block totals are scanned in
//! turn (in blocks again, where there are too many for one), and a last pass
//! adds to every counter the total of the blocks before its own.
//!
//! Sums wrap at 32 bits, as they do on the device; where the total fits 32
//! bits nothing wraps and every result is the plain sum.

use vstd::prelude::*;
use vstd::arithmetic::div_mod::{
    lemma_add_mod_noop, lemma_fundamental_div_mod, lemma_fundamental_div_mod_converse,
    lemma_mod_bound, lemma_small_mod,
};

verus! {

/// The sum of the counters from `from` up to, not including, `to`.
pub open spec fn spec_sum(counts: Seq<u32>, from: int, to: int) -> int
    decreases to - from,
{
    if to <= from {
        0
    } else {
        spec_sum(counts, from, to - 1) + counts[to - 1]
    }
}

/// A number as 32 bits hold it.
pub open spec fn spec_wrap(x: int) -> u32 {
    (x % 0x1_0000_0000) as u32
}

/// The exclusive scan: at each place the sum of the counters before it, as
/// 32 bits hold it.
pub open spec fn spec_exclusive_scan(counts: Seq<u32>) -> Seq<u32> {
    Seq::new(counts.len(), |i: int| spec_wrap(spec_sum(counts, 0, i)))
}

/// The first place of the block that place `i` is in.
pub open spec fn spec_block_start(i: int, block_size: int) -> int {
    i - i % block_size
}

/// Number of blocks of `block_size` that `len` counters make, the last one
/// maybe short.
pub open spec fn spec_block_count(len: int, block_size: int) -> int {
    (len + block_size - 1) / block_size
}

/// The scan inside the blocks: at each place the sum of the counters before
/// it in its own block.
pub open spec fn spec_in_bucket_sum(counts: Seq<u32>, block_size: int) -> Seq<u32> {
    Seq::new(
        counts.len(),
        |i: int| spec_wrap(spec_sum(counts, spec_block_start(i, block_size), i)),
    )
}

/// The block totals: for each block the sum of its counters.
pub open spec fn spec_block_totals(counts: Seq<u32>, block_size: int) -> Seq<u32> {
    Seq::new(
        spec_block_count(counts.len() as int, block_size) as nat,
        |b: int|
            spec_wrap(
                spec_sum(
                    counts,
                    b * block_size,
                    if (b + 1) * block_size < counts.len() {
                        (b + 1) * block_size
                    } else {
                        counts.len() as int
                    },
                ),
            ),
    )
}

/// A sum of counters is not negative.
pub proof fn lemma_sum_nonnegative(counts: Seq<u32>, from: int, to: int)
    ensures
        spec_sum(counts, from, to) >= 0,
    decreases to - from,
{
    if to > from {
        lemma_sum_nonnegative(counts, from, to - 1);
    }
}

/// A sum over a range is the sum over its two parts.
pub proof fn lemma_sum_split(counts: Seq<u32>, from: int, middle: int, to: int)
    requires
        from <= middle <= to,
    ensures
        spec_sum(counts, from, to) == spec_sum(counts, from, middle) + spec_sum(counts, middle, to),
    decreases to - middle,
{
    if to > middle {
        lemma_sum_split(counts, from, middle, to - 1);
    }
}

/// Wrapping before adding changes nothing of what 32 bits hold of the sum.
pub proof fn lemma_wrap_add(x: int, y: int)
    ensures
        spec_wrap(spec_wrap(x) + spec_wrap(y)) == spec_wrap(x + y),
        spec_wrap(spec_wrap(x) + y) == spec_wrap(x + y),
{
    lemma_add_mod_noop(x, y, 0x1_0000_0000);
    lemma_mod_bound(x, 0x1_0000_0000);
    lemma_mod_bound(y, 0x1_0000_0000);
    vstd::arithmetic::div_mod::lemma_add_mod_noop_right(y, x, 0x1_0000_0000);
    assert(y + x % 0x1_0000_0000 == x % 0x1_0000_0000 + y);
}

/// What fits 32 bits is held as it is.
pub proof fn lemma_wrap_small(x: int)
    requires
        0 <= x <= u32::MAX,
    ensures
        spec_wrap(x) == x,
{
    lemma_small_mod(x as nat, 0x1_0000_0000);
}

/// The wrapping addition of the machine is addition as 32 bits hold it.
pub proof fn lemma_wrapping_add(x: u32, y: u32)
    ensures
        vstd::wrapping::u32_specs::wrapping_add(x, y) == spec_wrap(x + y),
{
    if x + y > u32::MAX {
        lemma_fundamental_div_mod_converse(x + y, 0x1_0000_0000, 1, x + y - 0x1_0000_0000);
    } else {
        lemma_small_mod((x + y) as nat, 0x1_0000_0000);
    }
}

/// A place that is `offset` places into the block that starts at
/// `block * block_size` has that block start.
pub proof fn lemma_block_start(block: int, offset: int, block_size: int)
    requires
        0 <= offset < block_size,
        0 <= block,
    ensures
        spec_block_start(block * block_size + offset, block_size) == block * block_size,
        (block * block_size + offset) / block_size == block,
        (block * block_size + offset) % block_size == offset,
{
    assert(block * block_size + offset == block_size * block + offset) by (nonlinear_arith);
    lemma_fundamental_div_mod_converse(block * block_size + offset, block_size, block, offset);
}

/// The number of blocks is what the division of the length gives, rounded
/// up: every counter is in a block, and the last block is not empty.
pub proof fn lemma_block_count(len: int, block_size: int)
    requires
        len >= 0,
        block_size >= 1,
    ensures
        spec_block_count(len, block_size) >= 0,
        spec_block_count(len, block_size) * block_size >= len,
        len > 0 ==> (spec_block_count(len, block_size) - 1) * block_size < len,
        len == 0 ==> spec_block_count(len, block_size) == 0,
        spec_block_count(len, block_size) <= len,
        block_size >= 2 && len >= 2 ==> spec_block_count(len, block_size) < len,
{
    let n = len + block_size - 1;
    let q = n / block_size;
    lemma_fundamental_div_mod(n, block_size);
    lemma_mod_bound(n, block_size);
    assert(q * block_size == block_size * q) by (nonlinear_arith);
    assert((q - 1) * block_size == block_size * q - block_size) by (nonlinear_arith);
    assert(q >= 0) by (nonlinear_arith)
        requires
            n == block_size * q + n % block_size,
            0 <= n % block_size < block_size,
            n >= 0,
            block_size >= 1,
    ;
    assert(q <= len) by (nonlinear_arith)
        requires
            n == block_size * q + n % block_size,
            0 <= n % block_size < block_size,
            n == len + block_size - 1,
            len >= 0,
            block_size >= 1,
    ;
    if len == 0 {
        assert(q == 0) by (nonlinear_arith)
            requires
                block_size - 1 == block_size * q + n % block_size,
                0 <= n % block_size < block_size,
                q >= 0,
                block_size >= 1,
        ;
    }
    if block_size >= 2 && len >= 2 {
        assert(q < len) by (nonlinear_arith)
            requires
                n == block_size * q + n % block_size,
                0 <= n % block_size < block_size,
                n == len + block_size - 1,
                len >= 2,
                block_size >= 2,
        ;
    }
}

/// Number of blocks of `block_size` that `len` counters make.
pub fn block_count(len: usize, block_size: usize) -> (blocks: usize)
    requires
        block_size >= 1,
    ensures
        blocks == spec_block_count(len as int, block_size as int),
{
    let whole = len / block_size;
    let rest = len % block_size;
    proof {
        let n = len as int;
        let d = block_size as int;
        let q = n / d;
        let r = n % d;
        lemma_fundamental_div_mod(n, d);
        lemma_mod_bound(n, d);
        assert(q >= 0 && (r > 0 ==> q < n)) by (nonlinear_arith)
            requires
                n == d * q + r,
                0 <= r < d,
                n >= 0,
        ;
        if r == 0 {
            assert(n + d - 1 == q * d + (d - 1)) by (nonlinear_arith)
                requires
                    n == d * q + r,
                    r == 0,
            ;
            lemma_fundamental_div_mod_converse(n + d - 1, d, q, d - 1);
            assert(spec_block_count(n, d) == q);
        } else {
            assert(n + d - 1 == (q + 1) * d + (r - 1)) by (nonlinear_arith)
                requires
                    n == d * q + r,
            ;
            lemma_fundamental_div_mod_converse(n + d - 1, d, q + 1, r - 1);
            assert(spec_block_count(n, d) == q + 1);
        }
        assert(whole == q);
        assert(rest == r);
    }
    if rest == 0 {
        whole
    } else {
        whole + 1
    }
}

/// The scan inside the blocks.
pub fn in_bucket_sum(counts: &Vec<u32>, block_size: usize) -> (sums: Vec<u32>)
    requires
        block_size >= 1,
    ensures
        sums@ == spec_in_bucket_sum(counts@, block_size as int),
{
    let n = counts.len();
    let mut sums: Vec<u32> = Vec::new();
    let mut i: usize = 0;
    let mut start: usize = 0;
    let mut running: u32 = 0;
    let ghost mut block: int = 0;
    proof {
        lemma_block_start(0, 0, block_size as int);
        lemma_wrap_small(0);
    }
    while i < n
        invariant
            n == counts@.len(),
            block_size >= 1,
            i <= n,
            sums@.len() == i,
            block >= 0,
            start == block * block_size,
            start <= i < start + block_size,
            start == spec_block_start(i as int, block_size as int),
            running == spec_wrap(spec_sum(counts@, start as int, i as int)),
            forall|k: int|
                0 <= k < i ==> sums@[k] == spec_wrap(
                    spec_sum(counts@, spec_block_start(k, block_size as int), k),
                ),
        decreases n - i,
    {
        sums.push(running);
        proof {
            lemma_wrapping_add(running, counts@[i as int]);
            lemma_wrap_add(spec_sum(counts@, start as int, i as int), counts@[i as int] as int);
        }
        running = running.wrapping_add(counts[i]);
        i = i + 1;
        if i - start == block_size {
            proof {
                block = block + 1;
                assert(block * block_size == (block - 1) * block_size + block_size)
                    by (nonlinear_arith);
                lemma_block_start(block, 0, block_size as int);
                lemma_wrap_small(0);
            }
            start = i;
            running = 0;
        } else {
            proof {
                lemma_block_start(block, i - start, block_size as int);
            }
        }
    }
    assert(sums@ =~= spec_in_bucket_sum(counts@, block_size as int));
    sums
}

/// The block totals, from the scan inside the blocks: the last place of a
/// block holds the sum of all its counters but the last.
pub fn block_totals(in_bucket: &Vec<u32>, counts: &Vec<u32>, block_size: usize) -> (totals: Vec<u32>)
    requires
        block_size >= 1,
        in_bucket@ == spec_in_bucket_sum(counts@, block_size as int),
    ensures
        totals@ == spec_block_totals(counts@, block_size as int),
{
    let n = counts.len();
    let blocks = block_count(n, block_size);
    let mut totals: Vec<u32> = Vec::new();
    let mut b: usize = 0;
    let mut start: usize = 0;
    proof {
        lemma_block_count(n as int, block_size as int);
    }
    while b < blocks
        invariant
            n == counts@.len(),
            block_size >= 1,
            in_bucket@ == spec_in_bucket_sum(counts@, block_size as int),
            blocks == spec_block_count(n as int, block_size as int),
            blocks * block_size >= n,
            n > 0 ==> (blocks - 1) * block_size < n,
            b <= blocks,
            totals@.len() == b,
            b < blocks ==> start == b * block_size,
            b < blocks ==> start < n,
            forall|c: int| 0 <= c < b ==> totals@[c] == spec_block_totals(counts@, block_size as int)[c],
        decreases blocks - b,
    {
        let end = if n - start > block_size {
            start + block_size
        } else {
            n
        };
        let last = end - 1;
        proof {
            assert((b + 1) * block_size == b * block_size + block_size) by (nonlinear_arith);
            lemma_block_start(b as int, last - start, block_size as int);
            lemma_wrapping_add(in_bucket@[last as int], counts@[last as int]);
            lemma_wrap_add(spec_sum(counts@, start as int, last as int), counts@[last as int] as int);
            if b + 1 < blocks {
                assert((b + 1) * block_size <= (blocks - 1) * block_size) by (nonlinear_arith)
                    requires
                        b + 1 <= blocks - 1,
                        block_size >= 1,
                ;
            }
        }
        totals.push(in_bucket[last].wrapping_add(counts[last]));
        b = b + 1;
        if b < blocks {
            start = end;
        }
    }
    assert(totals@ =~= spec_block_totals(counts@, block_size as int));
    totals
}

/// The last pass: every counter's sum inside its block, plus the total of
/// the blocks before its own.
pub fn final_sum(in_bucket: &Vec<u32>, block_bases: &Vec<u32>, block_size: usize) -> (accum: Vec<u32>)
    requires
        block_size >= 1,
        block_bases@.len() == spec_block_count(in_bucket@.len() as int, block_size as int),
    ensures
        accum@.len() == in_bucket@.len(),
        forall|i: int|
            0 <= i < accum@.len() ==> accum@[i] == spec_wrap(
                block_bases@[i / (block_size as int)] + in_bucket@[i],
            ),
{
    let n = in_bucket.len();
    let mut accum: Vec<u32> = Vec::new();
    let mut i: usize = 0;
    proof {
        lemma_block_count(n as int, block_size as int);
    }
    while i < n
        invariant
            n == in_bucket@.len(),
            block_size >= 1,
            block_bases@.len() == spec_block_count(n as int, block_size as int),
            block_bases@.len() * block_size >= n,
            i <= n,
            accum@.len() == i,
            forall|k: int|
                0 <= k < i ==> accum@[k] == spec_wrap(
                    block_bases@[k / (block_size as int)] + in_bucket@[k],
                ),
        decreases n - i,
    {
        let block = i / block_size;
        proof {
            let q = i as int / block_size as int;
            lemma_fundamental_div_mod(i as int, block_size as int);
            lemma_mod_bound(i as int, block_size as int);
            assert(q < block_bases@.len()) by (nonlinear_arith)
                requires
                    i == block_size * q + i as int % block_size as int,
                    0 <= i as int % block_size as int,
                    block_bases@.len() * block_size >= n,
                    i < n,
                    block_size >= 1,
            ;
            lemma_wrapping_add(block_bases@[q], in_bucket@[i as int]);
        }
        accum.push(block_bases[block].wrapping_add(in_bucket[i]));
        i = i + 1;
    }
    accum
}

/// The sum of the totals of the first `blocks` blocks is the sum of the
/// counters in them, as 32 bits hold it.
pub proof fn lemma_totals_sum(counts: Seq<u32>, block_size: int, blocks: int)
    requires
        block_size >= 1,
        0 <= blocks,
        blocks * block_size <= counts.len(),
    ensures
        spec_wrap(spec_sum(spec_block_totals(counts, block_size), 0, blocks)) == spec_wrap(
            spec_sum(counts, 0, blocks * block_size),
        ),
    decreases blocks,
{
    let totals = spec_block_totals(counts, block_size);
    if blocks == 0 {
        assert(0 * block_size == 0) by (nonlinear_arith);
    } else {
        let b = blocks - 1;
        assert(blocks * block_size == b * block_size + block_size) by (nonlinear_arith)
            requires
                b == blocks - 1,
        ;
        assert(b * block_size >= 0) by (nonlinear_arith)
            requires
                b >= 0,
                block_size >= 1,
        ;
        lemma_totals_sum(counts, block_size, b);
        lemma_block_count(counts.len() as int, block_size);
        assert(b < spec_block_count(counts.len() as int, block_size)) by (nonlinear_arith)
            requires
                spec_block_count(counts.len() as int, block_size) * block_size >= counts.len(),
                (b + 1) * block_size <= counts.len(),
                block_size >= 1,
        ;
        assert((b + 1) * block_size == blocks * block_size);
        let end = if (b + 1) * block_size < counts.len() {
            (b + 1) * block_size
        } else {
            counts.len() as int
        };
        assert(end == blocks * block_size);
        assert(totals[b] == spec_wrap(spec_sum(counts, b * block_size, blocks * block_size)));
        lemma_sum_split(counts, 0, b * block_size, blocks * block_size);
        lemma_wrap_add(spec_sum(totals, 0, b), totals[b] as int);
        lemma_wrap_small(totals[b] as int);
        lemma_wrap_add(
            spec_sum(counts, 0, b * block_size),
            spec_sum(counts, b * block_size, blocks * block_size),
        );
    }
}

/// The exclusive scan of the counters, in blocks of `block_size`. Where
/// the block totals fit one block they are scanned in one pass, else they
/// are scanned in blocks themselves.
pub fn exclusive_scan(counts: &Vec<u32>, block_size: usize) -> (accum: Vec<u32>)
    requires
        block_size >= 2,
    ensures
        accum@ == spec_exclusive_scan(counts@),
    decreases counts@.len(),
{
    let in_bucket = in_bucket_sum(counts, block_size);
    let totals = block_totals(&in_bucket, counts, block_size);
    proof {
        lemma_block_count(counts@.len() as int, block_size as int);
        assert(totals@.len() == spec_block_count(counts@.len() as int, block_size as int));
    }
    let bases = if totals.len() <= block_size {
        let bases = in_bucket_sum(&totals, block_size);
        proof {
            assert forall|b: int| 0 <= b < totals@.len() implies bases@[b] == spec_wrap(
                spec_sum(totals@, 0, b),
            ) by {
                if b < block_size {
                    lemma_small_mod(b as nat, block_size as nat);
                } else {
                    assert(b == block_size && totals@.len() == block_size);
                }
            }
            assert(bases@ =~= spec_exclusive_scan(totals@));
        }
        bases
    } else {
        exclusive_scan(&totals, block_size)
    };
    let accum = final_sum(&in_bucket, &bases, block_size);
    proof {
        let size = block_size as int;
        assert forall|i: int| 0 <= i < accum@.len() implies accum@[i] == spec_wrap(
            spec_sum(counts@, 0, i),
        ) by {
            let b = i / size;
            lemma_fundamental_div_mod(i, size);
            lemma_mod_bound(i, size);
            assert(size * b == b * size) by (nonlinear_arith);
            assert(b >= 0 && b * size <= i) by (nonlinear_arith)
                requires
                    i == size * b + i % size,
                    0 <= i % size < size,
                    i >= 0,
            ;
            assert(b < totals@.len()) by (nonlinear_arith)
                requires
                    i == size * b + i % size,
                    0 <= i % size < size,
                    totals@.len() * size >= counts@.len(),
                    i < counts@.len(),
            ;
            assert(b * size == spec_block_start(i, size));
            assert(bases@[b] == spec_wrap(spec_sum(totals@, 0, b)));
            assert(in_bucket@[i] == spec_wrap(spec_sum(counts@, b * size, i)));
            lemma_totals_sum(counts@, size, b);
            lemma_sum_split(counts@, 0, b * size, i);
            lemma_wrap_add(spec_sum(counts@, 0, b * size), spec_sum(counts@, b * size, i));
            lemma_wrap_small(bases@[b] as int);
            lemma_wrap_small(in_bucket@[i] as int);
        }
        assert(accum@ =~= spec_exclusive_scan(counts@));
    }
    accum
}

/// Counters that one block of the pipeline's scan holds.
pub const SCAN_BLOCK_SIZE: usize = 512;

/// The offsets of the compacted triangle list from the per-voxel counts:
/// the exclusive scan in blocks of the pipeline's size.
pub fn prefix_sum(counts: &Vec<u32>) -> (accum: Vec<u32>)
    ensures
        accum@ == spec_exclusive_scan(counts@),
        accum@.len() == counts@.len(),
{
    exclusive_scan(counts, SCAN_BLOCK_SIZE)
}

/// The total of the counters from their scan: the last offset plus the last
/// counter, as 32 bits hold it; 0 where there are no counters.
pub fn used_count(counts: &Vec<u32>, accum: &Vec<u32>) -> (total: u32)
    requires
        accum@ == spec_exclusive_scan(counts@),
    ensures
        total == spec_wrap(spec_sum(counts@, 0, counts@.len() as int)),
{
    let n = counts.len();
    if n == 0 {
        proof {
            lemma_wrap_small(0);
        }
        return 0;
    }
    proof {
        lemma_wrapping_add(accum@[n - 1], counts@[n - 1]);
        lemma_wrap_add(spec_sum(counts@, 0, n - 1), counts@[n - 1] as int);
    }
    accum[n - 1].wrapping_add(counts[n - 1])
}

/// The scan starts at 0, each offset is the one before plus the counter
/// before, and the last offset plus the last counter is the total; all as
/// 32 bits hold it.
pub proof fn lemma_scan_recurrence(counts: Seq<u32>, i: int)
    requires
        0 <= i < counts.len(),
    ensures
        spec_exclusive_scan(counts)[0] == 0,
        i > 0 ==> spec_exclusive_scan(counts)[i] == spec_wrap(
            spec_exclusive_scan(counts)[i - 1] + counts[i - 1],
        ),
        spec_wrap(spec_exclusive_scan(counts)[counts.len() - 1] + counts[counts.len() - 1])
            == spec_wrap(spec_sum(counts, 0, counts.len() as int)),
{
    lemma_wrap_small(0);
    if i > 0 {
        lemma_wrap_add(spec_sum(counts, 0, i - 1), counts[i - 1] as int);
    }
    lemma_wrap_add(spec_sum(counts, 0, counts.len() - 1), counts[counts.len() - 1] as int);
}

/// Where the total of the counters fits 32 bits nothing wraps: every offset
/// is the plain sum of the counters before it, each offset is the one
/// before plus the counter before, the offsets never decrease, and the last
/// offset plus the last counter is the true total.
pub proof fn lemma_scan_exact(counts: Seq<u32>, i: int, j: int)
    requires
        spec_sum(counts, 0, counts.len() as int) <= u32::MAX,
        0 <= i <= j < counts.len(),
    ensures
        spec_exclusive_scan(counts)[0] == 0,
        spec_exclusive_scan(counts)[j] == spec_sum(counts, 0, j),
        j > 0 ==> spec_exclusive_scan(counts)[j] == spec_exclusive_scan(counts)[j - 1] + counts[j
            - 1],
        spec_exclusive_scan(counts)[i] <= spec_exclusive_scan(counts)[j],
        spec_exclusive_scan(counts)[counts.len() - 1] + counts[counts.len() - 1] == spec_sum(
            counts,
            0,
            counts.len() as int,
        ),
{
    let n = counts.len() as int;
    lemma_sum_split(counts, 0, i, j);
    lemma_sum_split(counts, 0, j, n);
    lemma_sum_split(counts, 0, n - 1, n);
    lemma_sum_nonnegative(counts, 0, i);
    lemma_sum_nonnegative(counts, i, j);
    lemma_sum_nonnegative(counts, j, n);
    lemma_sum_nonnegative(counts, 0, n - 1);
    lemma_wrap_small(0);
    lemma_wrap_small(spec_sum(counts, 0, i));
    lemma_wrap_small(spec_sum(counts, 0, j));
    lemma_wrap_small(spec_sum(counts, 0, n - 1));
    if j > 0 {
        lemma_sum_split(counts, 0, j - 1, j);
        lemma_sum_nonnegative(counts, 0, j - 1);
        lemma_wrap_small(spec_sum(counts, 0, j - 1));
    }
}

} // verus!
