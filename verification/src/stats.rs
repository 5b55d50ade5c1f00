//! Shared latency statistics: an arrival-order record of observed per-send
//! durations, their running sum, and the arithmetic mean over them.
//!
//! One `LatencyStats` value is shared (behind a lock, outside this crate) by
//! every completing attempt of a job; `record` is the sole mutation point.

use vstd::prelude::*;
use vstd::seq_lib::commutative_foldl;
use vstd::seq_lib::lemma_fold_left_permutation;

verus! {

/// Sum, as a mathematical integer, of a sequence of durations in nanoseconds.
pub open spec fn sum_nanos(s: Seq<u64>) -> int
    decreases s.len(),
{
    if s.len() == 0 {
        0
    } else {
        sum_nanos(s.drop_last()) + s.last()
    }
}

/// Arithmetic mean (integer division) of a non-empty sequence of durations.
pub open spec fn mean_nanos(s: Seq<u64>) -> int
    recommends
        s.len() > 0,
{
    sum_nanos(s) / s.len() as int
}

/// The sum of durations is non-negative and at most `len * u64::MAX`.
pub proof fn lemma_sum_bounds(s: Seq<u64>)
    ensures
        0 <= sum_nanos(s) <= s.len() * 0xffff_ffff_ffff_ffffu64,
    decreases s.len(),
{
    if s.len() > 0 {
        lemma_sum_bounds(s.drop_last());
    }
}

/// `sum_nanos` agrees with a left fold of addition over the sequence.
proof fn lemma_sum_is_fold(s: Seq<u64>)
    ensures
        sum_nanos(s) == s.fold_left(0int, |acc: int, d: u64| acc + d),
    decreases s.len(),
{
    if s.len() > 0 {
        lemma_sum_is_fold(s.drop_last());
    }
}

/// Two records of the same durations in different arrival orders have the
/// same length, the same sum, and therefore the same running average: the
/// mean after `k` samples is the arithmetic mean of those `k` durations no
/// matter in which order completions delivered them.
pub proof fn lemma_mean_order_independent(s1: Seq<u64>, s2: Seq<u64>)
    requires
        s1.to_multiset() == s2.to_multiset(),
    ensures
        s1.len() == s2.len(),
        sum_nanos(s1) == sum_nanos(s2),
        s1.len() > 0 ==> mean_nanos(s1) == mean_nanos(s2),
{
    broadcast use vstd::seq_lib::group_to_multiset_ensures;

    assert(s1.len() == s1.to_multiset().len());
    assert(s2.len() == s2.to_multiset().len());
    let f = |acc: int, d: u64| acc + d;
    assert(commutative_foldl(f));
    lemma_fold_left_permutation(s1, s2, f, 0int);
    lemma_sum_is_fold(s1);
    lemma_sum_is_fold(s2);
}

/// Arrival-order accumulator of per-attempt durations (nanoseconds), with
/// their running sum kept alongside.
pub struct LatencyStats {
    /// Every duration recorded so far, in completion order.
    pub samples: Vec<u64>,
    /// Running sum of `samples`, in nanoseconds.
    pub total_nanos: u128,
}

impl LatencyStats {
    /// The running sum matches the recorded samples.
    pub open spec fn wf(&self) -> bool {
        self.total_nanos == sum_nanos(self.samples@)
    }

    /// An empty record: no samples observed yet.
    pub fn new() -> (r: LatencyStats)
        ensures
            r.wf(),
            r.samples@ =~= Seq::<u64>::empty(),
    {
        LatencyStats { samples: Vec::new(), total_nanos: 0 }
    }

    /// How many durations have been recorded.
    pub fn count(&self) -> (r: usize)
        ensures
            r == self.samples@.len(),
    {
        self.samples.len()
    }

    /// Appends one observed duration and returns the updated running average
    /// together with the updated sample count. Exactly one entry is added per
    /// call, so no concurrent completion is lost when callers serialize their
    /// calls; the returned average is the arithmetic mean of every sample
    /// observed so far, whatever order they arrived in.
    pub fn record(&mut self, d: u64) -> (r: (u64, usize))
        requires
            old(self).wf(),
        ensures
            final(self).wf(),
            final(self).samples@ =~= old(self).samples@.push(d),
            r.1 == final(self).samples@.len(),
            r.0 == mean_nanos(final(self).samples@),
    {
        let c0 = self.samples.len();
        proof {
            lemma_sum_bounds(self.samples@);
            assert(c0 as int <= 0xffff_ffff_ffff_ffffint);
            assert(self.samples@.len() * 0xffff_ffff_ffff_ffffu64 <= 0xffff_ffff_ffff_ffffint
                * 0xffff_ffff_ffff_ffffint) by (nonlinear_arith)
                requires
                    0 <= self.samples@.len() <= 0xffff_ffff_ffff_ffffint,
            ;
        }
        self.samples.push(d);
        proof {
            assert(self.samples@.drop_last() =~= old(self).samples@);
        }
        self.total_nanos = self.total_nanos + d as u128;
        let count = self.samples.len();
        proof {
            lemma_sum_bounds(self.samples@);
            assert(sum_nanos(self.samples@) / (count as int) <= 0xffff_ffff_ffff_ffffu64 as int)
                by (nonlinear_arith)
                requires
                    count as int == self.samples@.len(),
                    count > 0,
                    0 <= sum_nanos(self.samples@) <= self.samples@.len()
                        * 0xffff_ffff_ffff_ffffu64,
            ;
        }
        let avg = (self.total_nanos / count as u128) as u64;
        (avg, count)
    }
}

} // verus!
