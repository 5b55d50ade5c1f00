//! The admission bound on how many send operations are in flight at once: a
//! fixed pool of slots, acquired before a send and released after it.
//!
//! This is the accounting model of the bound. The suspension itself (waiting
//! until a slot is free) is performed outside the crate by a counting
//! semaphore of the same capacity, kept in step with this model.

use vstd::prelude::*;

verus! {

/// Slot accounting for the concurrency bound: a fixed capacity and the number
/// of attempts currently holding a slot.
pub struct Limiter {
    /// The fixed number of slots, set at job start.
    pub capacity: usize,
    /// How many slots are currently held.
    pub in_flight: usize,
}

impl Limiter {
    /// No more slots are ever held than the pool has.
    pub open spec fn wf(&self) -> bool {
        self.in_flight <= self.capacity
    }

    /// A fresh pool of `capacity` slots, none held.
    pub fn new(capacity: usize) -> (r: Limiter)
        ensures
            r.wf(),
            r.capacity == capacity,
            r.in_flight == 0,
    {
        Limiter { capacity, in_flight: 0 }
    }

    /// Takes a slot when one is free; reports whether one was taken.
    pub fn try_acquire(&mut self) -> (r: bool)
        requires
            old(self).wf(),
        ensures
            final(self).wf(),
            final(self).capacity == old(self).capacity,
            r == (old(self).in_flight < old(self).capacity),
            r ==> final(self).in_flight == old(self).in_flight + 1,
            !r ==> final(self).in_flight == old(self).in_flight,
    {
        if self.in_flight < self.capacity {
            self.in_flight = self.in_flight + 1;
            true
        } else {
            false
        }
    }

    /// Returns a held slot to the pool. Called exactly once per successful
    /// acquire, on every exit path of the guarded send.
    pub fn release(&mut self)
        requires
            old(self).wf(),
            old(self).in_flight >= 1,
        ensures
            final(self).wf(),
            final(self).capacity == old(self).capacity,
            final(self).in_flight == old(self).in_flight - 1,
    {
        self.in_flight = self.in_flight - 1;
    }
}

/// At every instant, the number of attempts holding an acquired slot is at
/// most the configured capacity: the bound is the well-formedness that
/// `new` establishes and `try_acquire` and `release` preserve.
pub proof fn lemma_admission_bounded(l: Limiter)
    requires
        l.wf(),
    ensures
        l.in_flight <= l.capacity,
{
}

} // verus!
