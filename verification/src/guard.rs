//! The decisions around the fault-reporting hook: which faults stay silent, and what a guard
//! owes to the hook it displaced.

use crate::exception::Carrier;
use vstd::prelude::*;

verus! {

/// Whether the report of a fault is held back.
///
/// `seen` is what a look for a carrier in the fault's payload found. Only a payload that
/// holds a carrier is silenced: any other fault is reported as if no catch were active.
pub fn silences(seen: Option<&Carrier>) -> (silent: bool)
    ensures
        silent == seen is Some,
{
    seen.is_some()
}

/// Keeps the hook that was in place before a catch began, until the catch ends.
///
/// The guard hands that hook back once, and only once: whoever ends the catch puts it in
/// place again. Guards of nested catches each hold the hook that they displaced, so ending
/// them innermost first restores every hook in turn.
pub struct SuppressionGuard<H> {
    displaced: Option<H>,
}

impl<H> SuppressionGuard<H> {
    /// The hook that is still owed, `None` once it has been handed back.
    pub closed spec fn owed(&self) -> Option<H> {
        self.displaced
    }

    /// Begins to guard: `displaced` is the hook that was taken out of its place.
    pub fn new(displaced: H) -> (guard: Self)
        ensures
            guard.owed() == Some(displaced),
    {
        SuppressionGuard { displaced: Some(displaced) }
    }

    /// Ends the guard: hands back the hook that was displaced, exactly as it was taken.
    /// A second call finds nothing left to restore.
    pub fn release(&mut self) -> (hook: Option<H>)
        ensures
            hook == old(self).owed(),
            final(self).owed() is None,
    {
        self.displaced.take()
    }
}

} // verus!
