//! Single-flight guard: at most one injection runs at a time.
//!
//! The underlying OS mechanisms (clipboard, synthetic keystrokes) are not
//! reentrant-safe, so a second concurrent injection must be rejected
//! immediately rather than queued. The guard models a test-and-set flag;
//! the embedding program shares one guard among all callers.

use vstd::prelude::*;

verus! {

/// Process-wide single-flight flag. `held` is true while an injection
/// attempt is in progress.
pub struct SingleFlight {
    held: bool,
}

impl SingleFlight {
    /// Whether the guard is currently held.
    pub closed spec fn is_held(&self) -> bool {
        self.held
    }

    /// A fresh guard, not held by anyone.
    pub fn new() -> (g: SingleFlight)
        ensures
            !g.is_held(),
    {
        SingleFlight { held: false }
    }

    /// Test-and-set: succeeds exactly when the guard was free, and leaves
    /// it held in every case.
    pub fn try_acquire(&mut self) -> (acquired: bool)
        ensures
            acquired == !old(self).is_held(),
            final(self).is_held(),
    {
        let was_held = self.held;
        self.held = true;
        !was_held
    }

    /// Release the guard. Idempotent: releasing a free guard leaves it free.
    pub fn release(&mut self)
        ensures
            !final(self).is_held(),
    {
        self.held = false;
    }
}

/// Of two back-to-back acquisition attempts on a free guard, exactly the
/// first succeeds: the second observes the guard held and is turned away.
pub proof fn lemma_single_flight(g0: SingleFlight, g1: SingleFlight, g2: SingleFlight, first: bool, second: bool)
    requires
        !g0.is_held(),
        first == !g0.is_held() && g1.is_held(),
        second == !g1.is_held() && g2.is_held(),
    ensures
        first,
        !second,
{
}

} // verus!
