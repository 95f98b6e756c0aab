//! Admission control: a counting gate that caps the number of in-flight
//! probes at a configured limit.

use vstd::prelude::*;

verus! {

/// A capacity-limited admission gate. One unit of capacity (a permit) must
/// be acquired before a probe's network call begins and is released as soon
/// as the response is obtained. At most `limit` permits are ever outstanding.
pub struct Governor {
    limit: usize,
    active: usize,
}

impl Governor {
    /// The configured maximum number of simultaneously in-flight probes.
    pub closed spec fn limit(&self) -> nat {
        self.limit as nat
    }

    /// The number of permits currently outstanding.
    pub closed spec fn active(&self) -> nat {
        self.active as nat
    }

    /// The governor's invariant: outstanding permits never exceed the
    /// configured limit, and the limit is positive.
    pub open spec fn wf(&self) -> bool {
        &&& self.active() <= self.limit()
        &&& 1 <= self.limit()
    }

    pub fn new(limit: usize) -> (g: Governor)
        requires
            1 <= limit,
        ensures
            g.wf(),
            g.limit() == limit,
            g.active() == 0,
    {
        Governor { limit, active: 0 }
    }

    pub fn limit_value(&self) -> (w: usize)
        ensures
            w == self.limit(),
    {
        self.limit
    }

    pub fn active_count(&self) -> (n: usize)
        ensures
            n == self.active(),
    {
        self.active
    }

    /// Acquire one permit if capacity remains; succeeds exactly when the
    /// gate is not full.
    pub fn try_acquire(&mut self) -> (ok: bool)
        requires
            old(self).wf(),
        ensures
            final(self).wf(),
            final(self).limit() == old(self).limit(),
            ok == (old(self).active() < old(self).limit()),
            ok ==> final(self).active() == old(self).active() + 1,
            !ok ==> final(self).active() == old(self).active(),
    {
        if self.active < self.limit {
            self.active = self.active + 1;
            true
        } else {
            false
        }
    }

    /// Release one permit. Requires that a permit is outstanding.
    pub fn release(&mut self)
        requires
            old(self).wf(),
            1 <= old(self).active(),
        ensures
            final(self).wf(),
            final(self).limit() == old(self).limit(),
            final(self).active() == old(self).active() - 1,
    {
        self.active = self.active - 1;
    }
}

} // verus!
