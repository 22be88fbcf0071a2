//! The pipeline-wide shutdown request.
//!
//! A single shared flag, raised once by whichever component decides the
//! pipeline should stop (typically the heartbeat after its configured number
//! of beats).  The request is advisory: every other actor only reads it and
//! keeps iterating until its own veto predicate is satisfied, so raising the
//! flag never forces an actor to drop buffered work.

use vstd::prelude::*;

verus! {

/// A pipeline-wide stop request.  Once raised it stays raised.
pub struct ShutdownSignal {
    requested: bool,
}

impl ShutdownSignal {
    /// Whether a stop has been requested.
    pub closed spec fn spec_is_requested(self) -> bool {
        self.requested
    }

    /// A fresh signal with no stop requested.
    pub fn new() -> (s: ShutdownSignal)
        ensures
            !s.spec_is_requested(),
    {
        ShutdownSignal { requested: false }
    }

    /// Raise the stop request.  Idempotent: the state after the call does not
    /// depend on the state before it.
    pub fn request(&mut self)
        ensures
            final(self).spec_is_requested(),
    {
        self.requested = true;
    }

    /// Read the flag.
    pub fn is_requested(&self) -> (r: bool)
        ensures
            r == self.spec_is_requested(),
    {
        self.requested
    }
}

} // verus!
