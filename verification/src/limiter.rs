//! The concurrency limiter: a counting semaphore that bounds how many
//! notification-processing tasks may run at once. A permit is acquired
//! before a task starts and released exactly once when it completes.

use vstd::prelude::*;

verus! {

/// Relies on num_cpus::get: the number of logical CPUs of the host,
/// documented to be at least one. Used only to size the limiter.
#[verifier::external_body]
fn host_parallelism() -> (n: usize)
    ensures
        n >= 1,
{
    num_cpus::get()
}

/// A counting semaphore with a fixed capacity.
///
/// `outstanding` counts the permits currently held; the invariant keeps it
/// at or below the capacity, so at most `capacity` processing tasks are ever
/// admitted at once.
pub struct Limiter {
    pub capacity: usize,
    pub outstanding: usize,
}

impl Limiter {
    /// The limiter invariant: never more outstanding permits than capacity.
    pub open spec fn wf(&self) -> bool {
        &&& self.capacity >= 1
        &&& self.outstanding <= self.capacity
    }

    /// A fresh limiter with the given capacity and no permit outstanding.
    pub fn new(capacity: usize) -> (l: Limiter)
        requires
            capacity >= 1,
        ensures
            l.wf(),
            l.capacity == capacity,
            l.outstanding == 0,
    {
        Limiter { capacity, outstanding: 0 }
    }

    /// A fresh limiter sized to the host's parallelism, the default bound
    /// for concurrent event processing.
    pub fn with_host_parallelism() -> (l: Limiter)
        ensures
            l.wf(),
            l.outstanding == 0,
    {
        let n = host_parallelism();
        Limiter::new(n)
    }

    /// Hand out one permit if a slot is free. A caller that is denied must
    /// wait and ask again; the limiter is unchanged by a denied request.
    pub fn try_acquire(&mut self) -> (granted: bool)
        requires
            old(self).wf(),
        ensures
            final(self).wf(),
            final(self).capacity == old(self).capacity,
            granted <==> old(self).outstanding < old(self).capacity,
            granted ==> final(self).outstanding == old(self).outstanding + 1,
            !granted ==> *final(self) == *old(self),
    {
        if self.outstanding < self.capacity {
            self.outstanding = self.outstanding + 1;
            true
        } else {
            false
        }
    }

    /// Return one permit. Only a holder of a permit may call this, so at
    /// least one permit is outstanding.
    pub fn release(&mut self)
        requires
            old(self).wf(),
            old(self).outstanding >= 1,
        ensures
            final(self).wf(),
            final(self).capacity == old(self).capacity,
            final(self).outstanding == old(self).outstanding - 1,
    {
        self.outstanding = self.outstanding - 1;
    }

    /// How many permits are currently held.
    pub fn in_use(&self) -> (n: usize)
        ensures
            n == self.outstanding,
    {
        self.outstanding
    }
}

/// The admission bound: a well-formed limiter never has more outstanding
/// permits than its capacity, whatever sequence of acquisitions and releases
/// produced its state.
pub proof fn lemma_permits_bounded(l: Limiter)
    requires
        l.wf(),
    ensures
        l.outstanding <= l.capacity,
{
}

} // verus!
