use vstd::prelude::*;

use crate::session::SessionSlot;

verus! {

/// Recovery of the session slot after a holder of its lock failed while
/// holding it.
pub trait MutexNetplayExtensions {
    /// `poisoned` tells whether the lock guarding the slot was found
    /// poisoned; a poisoned slot is discarded and starts over empty.
    fn ensure_not_poisoned(&mut self, poisoned: bool);
}

impl<S> MutexNetplayExtensions for SessionSlot<S> {
    fn ensure_not_poisoned(&mut self, poisoned: bool)
        ensures
            poisoned ==> final(self)@ is None,
            !poisoned ==> final(self)@ == old(self)@,
    {
        if poisoned {
            self.reset();
        }
    }
}

} // verus!
