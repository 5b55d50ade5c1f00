//! The exact text of every status line the harness emits: the per-attempt
//! progress line, the per-attempt failure line, and the job summary.

use vstd::prelude::*;
use vstd::string::StringExecFns;
use crate::text::dec_rep;
use crate::text::dec_u128;

verus! {

/// `{index}/{total} [ETA: {eta}ns] - Message sent: {metadata}`
pub open spec fn progress_line_spec(
    index: int,
    total: int,
    eta_nanos: int,
    metadata: Seq<char>,
) -> Seq<char> {
    dec_rep(index) + "/"@ + dec_rep(total) + " [ETA: "@ + dec_rep(eta_nanos) + "ns] - Message sent: "@
        + metadata
}

/// `{index}/{total} Failed to send message: {error}`
pub open spec fn failure_line_spec(index: int, total: int, error: Seq<char>) -> Seq<char> {
    dec_rep(index) + "/"@ + dec_rep(total) + " Failed to send message: "@ + error
}

/// `Sent {total}/{total} messages in {elapsed}ns`
pub open spec fn summary_line_spec(total: int, elapsed_nanos: int) -> Seq<char> {
    "Sent "@ + dec_rep(total) + "/"@ + dec_rep(total) + " messages in "@ + dec_rep(elapsed_nanos)
        + "ns"@
}

/// Builds the progress line for a successful attempt.
pub fn progress_line(index: usize, total: usize, eta_nanos: u128, metadata: &str) -> (r: String)
    ensures
        r@ =~= progress_line_spec(index as int, total as int, eta_nanos as int, metadata@),
{
    let mut s = dec_u128(index as u128);
    s.append("/");
    let t = dec_u128(total as u128);
    s.append(t.as_str());
    s.append(" [ETA: ");
    let e = dec_u128(eta_nanos);
    s.append(e.as_str());
    s.append("ns] - Message sent: ");
    s.append(metadata);
    s
}

/// Builds the logged line for a failed attempt.
pub fn failure_line(index: usize, total: usize, error: &str) -> (r: String)
    ensures
        r@ =~= failure_line_spec(index as int, total as int, error@),
{
    let mut s = dec_u128(index as u128);
    s.append("/");
    let t = dec_u128(total as u128);
    s.append(t.as_str());
    s.append(" Failed to send message: ");
    s.append(error);
    s
}

/// Builds the job summary line.
pub fn summary_line(total: usize, elapsed_nanos: u128) -> (r: String)
    ensures
        r@ =~= summary_line_spec(total as int, elapsed_nanos as int),
{
    let mut s = String::new();
    s.append("Sent ");
    let t = dec_u128(total as u128);
    s.append(t.as_str());
    s.append("/");
    s.append(t.as_str());
    s.append(" messages in ");
    let e = dec_u128(elapsed_nanos);
    s.append(e.as_str());
    s.append("ns");
    s
}

} // verus!
