//! The echo guard: a flag that is up while an inbound update is applied, so
//! that setters reached from that update do not write the values back out.

use vstd::prelude::*;

verus! {

/// Up while an inbound update is applied. Only `arm` and `release` move it.
pub struct EchoGuard {
    armed: bool,
}

impl EchoGuard {
    pub closed spec fn is_armed(&self) -> bool {
        self.armed
    }

    pub fn new() -> (r: EchoGuard)
        ensures
            !r.is_armed(),
    {
        EchoGuard { armed: false }
    }

    /// Whether an inbound update is being applied.
    pub fn armed(&self) -> (r: bool)
        ensures
            r == self.is_armed(),
    {
        self.armed
    }

    pub fn arm(&mut self)
        ensures
            final(self).is_armed(),
    {
        self.armed = true;
    }

    pub fn release(&mut self)
        ensures
            !final(self).is_armed(),
    {
        self.armed = false;
    }
}

} // verus!
