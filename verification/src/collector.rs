//! Multi-channel fan-in collectors. Reference patterns beside the cache
//! actor: several channels, no task pool. The busy variant keeps
//! selecting over closed channels (an intentionally pathological loop
//! that spins once its sources are gone); the plain variant ends when
//! every channel has closed.

use vstd::prelude::*;

verus! {

/// The busy-spinning collector: counts every select result, including
/// the endless stream of `None`s from closed channels.
#[derive(Debug, PartialEq, Eq)]
pub struct BusyCollector(u32);

impl Default for BusyCollector {
    fn default() -> (c: Self)
        ensures
            c.spec_count() == 0,
    {
        BusyCollector(0)
    }
}

impl BusyCollector {
    /// How many select results the loop has observed.
    pub closed spec fn spec_count(&self) -> u32 {
        self.0
    }

    /// How many select results the loop has observed.
    pub fn count(&self) -> (n: u32)
        ensures
            n == self.spec_count(),
    {
        self.0
    }

    /// Record one observed select result.
    pub fn on_message(&mut self)
        requires
            old(self).spec_count() < u32::MAX,
        ensures
            final(self).spec_count() == old(self).spec_count() + 1,
    {
        self.0 = self.0 + 1;
    }
}

/// The well-behaved collector: stateless; its loop ends when every
/// source channel has closed.
#[derive(Debug, PartialEq, Eq)]
pub struct Collector;

impl Default for Collector {
    fn default() -> (c: Self)
        ensures
            c == (Collector),
    {
        Collector
    }
}

} // verus!
