//! Size aggregation.
//!
//! The total byte count of a run is the sum of the sizes the aggregator
//! could read.  The aggregate is best-effort and only scales the progress
//! display: a file whose metadata cannot be read (removed between
//! enumeration and sizing, say) contributes zero rather than aborting.

use vstd::prelude::*;

verus! {

/// The bytes one metadata read contributes: an unreadable file counts as
/// zero.
pub open spec fn size_or_zero(m: Option<u64>) -> int {
    match m {
        Some(n) => n as int,
        None => 0,
    }
}

/// The sum of the readable sizes of a sequence of metadata reads.
pub open spec fn sum_sizes(sizes: Seq<Option<u64>>) -> int
    decreases sizes,
{
    if sizes.len() == 0 {
        0
    } else {
        sum_sizes(sizes.drop_last()) + size_or_zero(sizes.last())
    }
}

/// Every term lies between zero and `u64::MAX`, so the sum lies between
/// zero and the count of terms times `u64::MAX`.
pub proof fn lemma_sum_sizes_bounds(sizes: Seq<Option<u64>>)
    ensures
        0 <= sum_sizes(sizes),
        sum_sizes(sizes) <= sizes.len() * (u64::MAX as int),
    decreases sizes,
{
    if sizes.len() == 0 {
    } else {
        lemma_sum_sizes_bounds(sizes.drop_last());
        assert((sizes.len() - 1) * (u64::MAX as int) + (u64::MAX as int) == sizes.len() * (
        u64::MAX as int)) by (nonlinear_arith);
    }
}

/// Sums the sizes of the files whose metadata could be read, giving the
/// run's total byte count.  The result is exact: a 128-bit count cannot
/// overflow on any sequence a `Vec` can hold.
pub fn total_size(sizes: &Vec<Option<u64>>) -> (total: u128)
    ensures
        total == sum_sizes(sizes@),
{
    let mut total: u128 = 0;
    let mut i: usize = 0;
    while i < sizes.len()
        invariant
            i <= sizes.len(),
            total == sum_sizes(sizes@.take(i as int)),
        decreases sizes.len() - i,
    {
        let contribution: u64 = match sizes[i] {
            Some(n) => n,
            None => 0,
        };
        proof {
            lemma_sum_sizes_bounds(sizes@.take(i as int));
            assert((i as int) * (u64::MAX as int) + (u64::MAX as int) < 0x100000000000000000000000000000000)
                by (nonlinear_arith)
                requires
                    0 <= i as int <= 0xffffffffffffffff,
            ;
            assert(sizes@.take(i as int + 1).drop_last() =~= sizes@.take(i as int));
            assert(sizes@.take(i as int + 1).last() == sizes@[i as int]);
        }
        total = total + contribution as u128;
        i = i + 1;
    }
    proof {
        assert(sizes@.take(sizes@.len() as int) =~= sizes@);
    }
    total
}

} // verus!
