//! Admission control for the scheduler's recurring task slots.
//!
//! The process-wide scheduler runs each registered task repeatedly at a
//! fixed period, on an execution context separate from request serving.  If
//! a run overruns its period the next tick may still start, but overlap is
//! bounded: at most `limit` (in this system, two) runs of the same task may
//! be in flight, and further ticks wait instead of piling up.  The
//! [`TickGate`] is that bound as verified state: the surrounding runner asks
//! it before starting a run and tells it when one finishes.

use vstd::prelude::*;

verus! {

/// The admission gate of one task slot.
pub struct TickGate {
    limit: u64,
    in_flight: u64,
}

impl TickGate {
    pub closed spec fn spec_limit(&self) -> u64 {
        self.limit
    }

    pub closed spec fn spec_in_flight(&self) -> u64 {
        self.in_flight
    }

    /// Invariant: never more overlapping runs than the bound allows.
    pub open spec fn wf(&self) -> bool {
        self.spec_in_flight() <= self.spec_limit() && self.spec_limit() >= 1
    }

    pub fn new(limit: u64) -> (g: TickGate)
        requires
            limit >= 1,
        ensures
            g.wf(),
            g.spec_limit() == limit,
            g.spec_in_flight() == 0,
    {
        TickGate { limit, in_flight: 0 }
    }

    /// A tick fired: admit the run if the slot has room, else refuse it (the
    /// runner then waits for a running instance to finish).
    pub fn try_begin(&mut self) -> (admitted: bool)
        requires
            old(self).wf(),
        ensures
            final(self).wf(),
            final(self).spec_limit() == old(self).spec_limit(),
            admitted == (old(self).spec_in_flight() < old(self).spec_limit()),
            final(self).spec_in_flight() == if admitted {
                old(self).spec_in_flight() + 1
            } else {
                old(self).spec_in_flight() as int
            },
    {
        if self.in_flight < self.limit {
            self.in_flight = self.in_flight + 1;
            true
        } else {
            false
        }
    }

    /// An admitted run finished.
    pub fn end(&mut self)
        requires
            old(self).wf(),
            old(self).spec_in_flight() >= 1,
        ensures
            final(self).wf(),
            final(self).spec_limit() == old(self).spec_limit(),
            final(self).spec_in_flight() == old(self).spec_in_flight() - 1,
    {
        self.in_flight = self.in_flight - 1;
    }
}

} // verus!
