//! Cancellation strategies: what the engine polls while it searches.

use vstd::prelude::*;

verus! {

/// A strategy that is told when a solve begins and is then asked, as often
/// as the engine likes, whether the search should stop.
///
/// An implementation may say in two spec functions what its methods do, so
/// that whoever holds a strategy can reason about it without knowing its
/// type. One that says nothing promises nothing.
pub trait Callbacks {
    /// Holds of a strategy and of any value that `started` may leave in its
    /// place.
    open spec fn after_started(&self, next: &Self) -> bool {
        true
    }

    /// Holds of a strategy, of any value that one call of `terminate` may
    /// leave in its place, and of the answer given with it.
    open spec fn after_terminate(&self, next: &Self, stop: bool) -> bool {
        true
    }

    /// Called once at the beginning of every solve, before the engine
    /// searches.
    fn started(&mut self)
        ensures
            old(self).after_started(final(self)),
    ;

    /// Called by the engine from time to time during a solve; `true` asks it
    /// to stop.
    fn terminate(&mut self) -> (stop: bool)
        ensures
            old(self).after_terminate(final(self), stop),
    ;
}

} // verus!
