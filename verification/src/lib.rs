//! A load harness for a message-broker producer: it dispatches one payload to
//! a topic many times concurrently, bounds the number of in-flight sends, and
//! reports live progress with an estimated time to completion derived from a
//! running average of observed per-send latency.
//!
//! This crate holds the verified core: the latency statistics, the admission
//! bound, the dispatch state machine, and the text of every progress line.
//! The asynchronous plumbing (argument parsing, the broker client, the file
//! reads) lives outside and hands the core plain values.

use vstd::prelude::*;

pub mod cli;
pub mod config;
pub mod dispatch;
pub mod files;
pub mod limiter;
pub mod report;
pub mod stats;
pub mod text;

verus! {

/// Projected remaining time, in nanoseconds, to finish `total` attempts when
/// `completed` have finished and the running average latency is `avg` (also
/// nanoseconds): `avg * (total - completed)`, and zero once nothing remains.
pub open spec fn eta_spec(avg: u64, completed: usize, total: usize) -> int {
    if completed >= total {
        0
    } else {
        avg * (total - completed)
    }
}

/// Computes the projected remaining time for the attempts not yet completed.
pub fn eta(avg: u64, completed: usize, total: usize) -> (r: u128)
    ensures
        r == eta_spec(avg, completed, total),
{
    if completed >= total {
        0
    } else {
        let rem = total - completed;
        proof {
            assert((avg as int) * (rem as int) <= 0xffff_ffff_ffff_ffffint
                * 0xffff_ffff_ffff_ffffint) by (nonlinear_arith)
                requires
                    0 <= avg as int <= 0xffff_ffff_ffff_ffffint,
                    0 <= rem as int <= 0xffff_ffff_ffff_ffffint,
            ;
        }
        (avg as u128) * (rem as u128)
    }
}

/// For a stable running average, the projected remaining time never grows as
/// the completed count approaches the total: completing attempts can only
/// bring the ETA down (to zero once nothing remains).
pub proof fn lemma_eta_monotone(avg: u64, c1: usize, c2: usize, total: usize)
    requires
        c1 <= c2,
    ensures
        eta_spec(avg, c2, total) <= eta_spec(avg, c1, total),
{
    if c2 >= total {
        if c1 < total {
            assert((avg as int) * ((total - c1) as int) >= 0) by (nonlinear_arith)
                requires
                    0 <= avg as int,
                    0 <= (total - c1) as int,
            ;
        }
    } else {
        assert((avg as int) * ((total - c2) as int) <= (avg as int) * ((total - c1) as int))
            by (nonlinear_arith)
            requires
                0 <= avg as int,
                0 <= (total - c2) as int <= (total - c1) as int,
        ;
    }
}

} // verus!
