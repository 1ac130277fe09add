//! Admission control for the bounded pool of worker threads that run the
//! blocking translation call: at most `capacity` calls are in flight, and a
//! submission beyond that is refused at once instead of queued.

use vstd::prelude::*;

verus! {

/// Default number of translation calls that may run at the same time.
pub const DEFAULT_CAPACITY: usize = 16;

/// Counts the worker slots in use out of a fixed capacity.
#[derive(Debug)]
pub struct WorkerPool {
    capacity: usize,
    busy: usize,
}

impl WorkerPool {
    pub closed spec fn spec_capacity(&self) -> nat {
        self.capacity as nat
    }

    pub closed spec fn spec_busy(&self) -> nat {
        self.busy as nat
    }

    /// No more slots are in use than the pool has.
    pub open spec fn wf(&self) -> bool {
        self.spec_busy() <= self.spec_capacity()
    }

    /// Every slot is in use.
    pub open spec fn is_saturated(&self) -> bool {
        self.spec_busy() >= self.spec_capacity()
    }

    /// A pool of `capacity` slots, none in use.
    pub fn new(capacity: usize) -> (r: WorkerPool)
        ensures
            r.spec_capacity() == capacity,
            r.spec_busy() == 0,
            r.wf(),
    {
        WorkerPool { capacity, busy: 0 }
    }

    pub fn capacity(&self) -> (r: usize)
        ensures
            r == self.spec_capacity(),
    {
        self.capacity
    }

    pub fn busy(&self) -> (r: usize)
        ensures
            r == self.spec_busy(),
    {
        self.busy
    }

    /// Takes a slot if one is free; refuses, leaving the pool as it was, when
    /// all are in use.
    pub fn try_acquire(&mut self) -> (r: bool)
        ensures
            r == !old(self).is_saturated(),
            !r ==> *final(self) == *old(self),
            final(self).spec_capacity() == old(self).spec_capacity(),
            final(self).spec_busy() == if r { old(self).spec_busy() + 1 } else { old(self).spec_busy() },
            old(self).wf() ==> final(self).wf(),
    {
        if self.busy < self.capacity {
            self.busy = self.busy + 1;
            true
        } else {
            false
        }
    }

    /// Gives back a slot taken by `try_acquire`.
    pub fn release(&mut self)
        ensures
            final(self).spec_capacity() == old(self).spec_capacity(),
            final(self).spec_busy() == if old(self).spec_busy() > 0 {
                old(self).spec_busy() - 1
            } else {
                0
            },
            old(self).wf() ==> final(self).wf(),
    {
        if self.busy > 0 {
            self.busy = self.busy - 1;
        }
    }
}

} // verus!
