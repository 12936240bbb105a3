//! Interrupt-safe mutual exclusion.
//!
//! On a single core, a handler that tries to take a lock already held by
//! the context it interrupted can never succeed: the interrupted context
//! cannot run again until the handler returns. The rule is therefore that
//! any resource shared with a handler is touched only inside a scope that
//! first masks interrupt delivery and then takes the lock, and leaves in
//! the opposite order. This type models that scope; the busy-spin lock and
//! the hardware interrupt flag themselves live outside the library.
use vstd::prelude::*;

verus! {

/// The state of one mask-then-lock scope.
pub struct CriticalSection {
    /// Interrupt delivery is masked.
    pub masked: bool,
    /// The spin lock is held.
    pub locked: bool,
}

impl CriticalSection {
    /// Discipline invariant: the lock is only ever held while interrupt
    /// delivery is masked.
    pub open spec fn wf(self) -> bool {
        self.locked ==> self.masked
    }

    pub fn new() -> (r: CriticalSection)
        ensures
            !r.masked,
            !r.locked,
            r.wf(),
    {
        CriticalSection { masked: false, locked: false }
    }

    /// Enters the scope: masks interrupt delivery, then takes the lock.
    /// Entering while the lock is already held by this context would be a
    /// guaranteed self-deadlock, so it is ruled out here.
    pub fn enter(&mut self)
        requires
            !old(self).locked,
            !old(self).masked,
        ensures
            final(self).masked,
            final(self).locked,
            final(self).wf(),
    {
        self.masked = true;
        self.locked = true;
    }

    /// Leaves the scope: releases the lock, then unmasks interrupt
    /// delivery. Every exit path of a user must come through here.
    pub fn exit(&mut self)
        requires
            old(self).locked,
        ensures
            !final(self).masked,
            !final(self).locked,
            final(self).wf(),
    {
        self.locked = false;
        self.masked = false;
    }
}

} // verus!
