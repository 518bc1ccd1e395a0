use hala_sdf_baker::kernels::scan::{
    block_count, block_totals, exclusive_scan, final_sum, in_bucket_sum, prefix_sum, used_count,
};

fn plain_scan(counts: &[u32]) -> Vec<u32> {
    let mut sum: u32 = 0;
    let mut out = Vec::new();
    for c in counts {
        out.push(sum);
        sum = sum.wrapping_add(*c);
    }
    out
}

#[test]
fn scan_of_nothing_is_nothing() {
    assert_eq!(prefix_sum(&vec![]), Vec::<u32>::new());
    assert_eq!(used_count(&vec![], &vec![]), 0);
}

#[test]
fn scan_starts_at_zero_and_adds_the_counter_before() {
    let counts = vec![3, 0, 2, 5, 1];
    let accum = prefix_sum(&counts);
    assert_eq!(accum, vec![0, 3, 3, 5, 10]);
    assert_eq!(accum[0], 0);
    for i in 1..counts.len() {
        assert_eq!(accum[i], accum[i - 1] + counts[i - 1]);
    }
    assert_eq!(used_count(&counts, &accum), 11);
}

#[test]
fn scan_in_small_blocks_is_the_plain_scan() {
    let counts: Vec<u32> = (0..100u32).map(|i| (i * 7 + 3) % 11).collect();
    let expected = plain_scan(&counts);
    for block_size in 2..12usize {
        assert_eq!(exclusive_scan(&counts, block_size), expected);
    }
    assert_eq!(exclusive_scan(&counts, 100), expected);
    assert_eq!(exclusive_scan(&counts, 1000), expected);
}

#[test]
fn scan_recurses_where_block_totals_do_not_fit_one_block() {
    // 2 counters a block, 50 blocks, 25 blocks of block totals, and so on.
    let counts: Vec<u32> = (0..100u32).map(|i| i + 1).collect();
    let accum = exclusive_scan(&counts, 2);
    assert_eq!(accum[99], 99 * 100 / 2);
    assert_eq!(accum, plain_scan(&counts));
}

#[test]
fn scan_over_more_than_one_block_of_the_pipeline() {
    let counts: Vec<u32> = (0..2000u32).map(|i| i % 5).collect();
    let accum = prefix_sum(&counts);
    assert_eq!(accum, plain_scan(&counts));
    assert_eq!(used_count(&counts, &accum), 4000);
}

#[test]
fn sums_wrap_at_32_bits() {
    let counts = vec![u32::MAX, 2, 5];
    let accum = prefix_sum(&counts);
    assert_eq!(accum, vec![0, u32::MAX, 1]);
    assert_eq!(used_count(&counts, &accum), 6);
}

#[test]
fn passes_of_the_scan() {
    let counts = vec![1, 2, 3, 4, 5, 6, 7];
    let in_bucket = in_bucket_sum(&counts, 3);
    assert_eq!(in_bucket, vec![0, 1, 3, 0, 4, 9, 0]);
    let totals = block_totals(&in_bucket, &counts, 3);
    assert_eq!(totals, vec![6, 15, 7]);
    let bases = in_bucket_sum(&totals, 3);
    assert_eq!(bases, vec![0, 6, 21]);
    assert_eq!(final_sum(&in_bucket, &bases, 3), vec![0, 1, 3, 6, 10, 15, 21]);
}

#[test]
fn blocks_cover_the_counters() {
    assert_eq!(block_count(0, 512), 0);
    assert_eq!(block_count(1, 512), 1);
    assert_eq!(block_count(512, 512), 1);
    assert_eq!(block_count(513, 512), 2);
    assert_eq!(block_count(usize::MAX, 1), usize::MAX);
    assert_eq!(block_count(usize::MAX, usize::MAX), 1);
}
