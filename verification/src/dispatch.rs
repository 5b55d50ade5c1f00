//! The dispatch engine: one job, `total` independent attempts to send the
//! same payload, at most `capacity` of them in flight at once, every
//! completion folded into the shared latency statistics.
//!
//! The engine is a state machine. The surrounding program performs the
//! asynchronous work — spawning tasks, waiting on the semaphore, the send
//! itself — and drives the machine through `begin_attempt` and
//! `complete_attempt`, taking back each progress line to display. Every
//! decision, every count and every emitted character is fixed here.

use vstd::prelude::*;
use vstd::string::StringExecFns;
use crate::eta;
use crate::eta_spec;
use crate::files::FileError;
use crate::limiter::Limiter;
use crate::report::failure_line;
use crate::report::failure_line_spec;
use crate::report::progress_line;
use crate::report::progress_line_spec;
use crate::report::summary_line;
use crate::report::summary_line_spec;
use crate::stats::LatencyStats;
use crate::stats::mean_nanos;

verus! {

/// How one attempt ended: sent, with the broker's delivery metadata rendered
/// as text, or failed, with the error rendered as text.
#[derive(Debug, Clone)]
pub enum SendOutcome {
    Sent(String),
    Failed(String),
}

/// One dispatch run, described once and never mutated: the payload, the
/// message key, the topic, and how many times to send.
#[derive(Debug, Clone)]
pub struct Job {
    pub payload: Vec<u8>,
    pub key: String,
    pub topic: String,
    pub total: usize,
}

impl Job {
    /// Describes a run. A key that was not given defaults to `test`; an
    /// iteration count that was not given defaults to one.
    pub fn new(payload: Vec<u8>, key: Option<String>, topic: String, iterations: Option<
        usize,
    >) -> (r: Job)
        ensures
            r.payload@ == payload@,
            r.topic@ == topic@,
            r.key@ == match key {
                Some(k) => k@,
                None => "test"@,
            },
            r.total == match iterations {
                Some(n) => n,
                None => 1usize,
            },
    {
        let key = match key {
            Some(k) => k,
            None => {
                let mut s = String::new();
                s.append("test");
                s
            },
        };
        let total = match iterations {
            Some(n) => n,
            None => 1,
        };
        Job { payload, key, topic, total }
    }
}

/// The whole engine at one instant: the job, the slot accounting, the
/// latency record, and how many attempts have begun and completed.
pub struct DispatchState {
    pub job: Job,
    pub limiter: Limiter,
    pub stats: LatencyStats,
    /// Attempts that have acquired a slot so far.
    pub launched: usize,
    /// Attempts that have recorded their duration and released their slot.
    pub completed: usize,
}

/// The text an attempt's completion produces: the progress line on success —
/// its ETA projected from the mean of the samples recorded up to and
/// including this attempt — or the failure line on failure.
pub open spec fn completion_line_spec(
    outcome: SendOutcome,
    index: int,
    total: int,
    samples: Seq<u64>,
) -> Seq<char> {
    match outcome {
        SendOutcome::Sent(metadata) => progress_line_spec(
            index,
            total,
            eta_spec_at(samples, total),
            metadata@,
        ),
        SendOutcome::Failed(error) => failure_line_spec(index, total, error@),
    }
}

/// The ETA projected from a non-empty record of samples: mean latency times
/// the attempts that remain.
pub open spec fn eta_spec_at(samples: Seq<u64>, total: int) -> int {
    if samples.len() >= total {
        0
    } else {
        mean_nanos(samples) * (total - samples.len())
    }
}

impl DispatchState {
    /// Every count is consistent: no attempt completes before it begins, no
    /// more begin than the job asks, each slot held belongs to an attempt
    /// that began and has not completed, and exactly the completed attempts
    /// have left a duration sample.
    pub open spec fn wf(&self) -> bool {
        &&& self.completed <= self.launched <= self.job.total
        &&& self.limiter.wf()
        &&& self.limiter.in_flight == self.launched - self.completed
        &&& self.stats.wf()
        &&& self.stats.samples@.len() == self.completed
    }

    /// A job about to run: nothing begun, nothing recorded, `capacity`
    /// slots free.
    pub fn new(job: Job, capacity: usize) -> (r: DispatchState)
        ensures
            r.wf(),
            r.job == job,
            r.limiter.capacity == capacity,
            r.launched == 0,
            r.completed == 0,
            r.stats.samples@ =~= Seq::<u64>::empty(),
    {
        DispatchState {
            job,
            limiter: Limiter::new(capacity),
            stats: LatencyStats::new(),
            launched: 0,
            completed: 0,
        }
    }

    /// Admits the next attempt when the job still has attempts to begin and
    /// a slot is free, and returns its one-based index; otherwise changes
    /// nothing. The caller suspends on the real semaphore before asking.
    pub fn begin_attempt(&mut self) -> (r: Option<usize>)
        requires
            old(self).wf(),
        ensures
            final(self).wf(),
            final(self).job == old(self).job,
            final(self).limiter.capacity == old(self).limiter.capacity,
            r is Some <==> (old(self).launched < old(self).job.total && old(self).limiter.in_flight
                < old(self).limiter.capacity),
            match r {
                Some(i) => {
                    &&& i == old(self).launched + 1
                    &&& final(self).launched == old(self).launched + 1
                    &&& final(self).completed == old(self).completed
                    &&& final(self).stats == old(self).stats
                    &&& final(self).limiter.in_flight == old(self).limiter.in_flight + 1
                },
                None => *final(self) == *old(self),
            },
    {
        if self.launched < self.job.total {
            if self.limiter.try_acquire() {
                self.launched = self.launched + 1;
                Some(self.launched)
            } else {
                None
            }
        } else {
            None
        }
    }

    /// Folds one finished attempt into the statistics: records its duration
    /// (success and failure alike), releases its slot, and returns the line
    /// to display — progress with the freshly projected ETA, or the logged
    /// failure. A failure neither aborts the job nor the other attempts.
    pub fn complete_attempt(&mut self, index: usize, elapsed_nanos: u64, outcome:
        &SendOutcome) -> (line: String)
        requires
            old(self).wf(),
            old(self).completed < old(self).launched,
            1 <= index <= old(self).job.total,
        ensures
            final(self).wf(),
            final(self).job == old(self).job,
            final(self).limiter.capacity == old(self).limiter.capacity,
            final(self).launched == old(self).launched,
            final(self).completed == old(self).completed + 1,
            final(self).stats.samples@ =~= old(self).stats.samples@.push(elapsed_nanos),
            line@ =~= completion_line_spec(
                *outcome,
                index as int,
                old(self).job.total as int,
                old(self).stats.samples@.push(elapsed_nanos),
            ),
    {
        let (avg, count) = self.stats.record(elapsed_nanos);
        let eta_nanos = eta(avg, count, self.job.total);
        self.limiter.release();
        self.completed = self.completed + 1;
        proof {
            assert(eta_nanos as int == eta_spec_at(self.stats.samples@, self.job.total as int));
        }
        match outcome {
            SendOutcome::Sent(metadata) => progress_line(
                index,
                self.job.total,
                eta_nanos,
                metadata.as_str(),
            ),
            SendOutcome::Failed(error) => failure_line(index, self.job.total, error.as_str()),
        }
    }

    /// Whether every attempt of the job has completed.
    pub fn is_done(&self) -> (r: bool)
        ensures
            r == (self.completed == self.job.total),
    {
        self.completed == self.job.total
    }

    /// The final summary. It reports the configured count as sent whatever
    /// the individual outcomes were, as the emitted wording always has.
    pub fn summary(&self, elapsed_nanos: u128) -> (r: String)
        ensures
            r@ =~= summary_line_spec(self.job.total as int, elapsed_nanos as int),
    {
        summary_line(self.job.total, elapsed_nanos)
    }
}

/// Starts a job from the outcome of reading the payload file: a failed read
/// aborts the whole job before any attempt exists, handing the error back
/// unchanged; a successful read yields the engine ready to dispatch, with
/// nothing begun and nothing recorded.
pub fn start_job(
    payload: Result<Vec<u8>, FileError>,
    key: Option<String>,
    topic: String,
    iterations: Option<usize>,
    capacity: usize,
) -> (r: Result<DispatchState, FileError>)
    ensures
        match payload {
            Err(e) => r == Result::<DispatchState, FileError>::Err(e),
            Ok(bytes) => match r {
                Ok(s) => {
                    &&& s.wf()
                    &&& s.job.payload@ == bytes@
                    &&& s.job.topic@ == topic@
                    &&& s.job.key@ == match key {
                        Some(k) => k@,
                        None => "test"@,
                    }
                    &&& s.job.total == match iterations {
                        Some(n) => n,
                        None => 1usize,
                    }
                    &&& s.limiter.capacity == capacity
                    &&& s.launched == 0
                    &&& s.completed == 0
                    &&& s.stats.samples@ =~= Seq::<u64>::empty()
                },
                Err(_) => false,
            },
        },
{
    let bytes = match payload {
        Ok(b) => b,
        Err(e) => {
            return Err(e);
        },
    };
    let job = Job::new(bytes, key, topic, iterations);
    Ok(DispatchState::new(job, capacity))
}

/// Exactly as many attempts have begun, and exactly as many duration
/// samples have been recorded, as the job configured — once, and only
/// because, every attempt has completed. In particular a completed job of
/// `N` attempts performed exactly `N` recordings, one per attempt, success
/// or failure alike.
pub proof fn lemma_completed_job_counts(s: DispatchState)
    requires
        s.wf(),
        s.completed == s.job.total,
    ensures
        s.launched == s.job.total,
        s.stats.samples@.len() == s.job.total,
        s.limiter.in_flight == 0,
{
}

} // verus!
