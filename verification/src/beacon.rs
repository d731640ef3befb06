//! A beacon that emits a growing counter on every timer tick until it is
//! cancelled. A reference pattern beside the cache actor: one timer, one
//! sink, no task pool.

use vstd::prelude::*;

verus! {

/// The beacon's counter: the value the next tick will emit.
#[derive(Debug, PartialEq, Eq)]
pub struct Beacon(u8);

impl Default for Beacon {
    /// A beacon that starts counting at 0.
    fn default() -> (b: Self)
        ensures
            b.spec_count() == 0,
    {
        Beacon(0)
    }
}

impl Beacon {
    /// The value the next tick will emit.
    pub closed spec fn spec_count(&self) -> u8 {
        self.0
    }

    /// The message to hand to the sink on a timer tick.
    pub fn next_message(&self) -> (m: u8)
        ensures
            m == self.spec_count(),
    {
        self.0
    }

    /// Advance the counter once the sink accepted the message (a sink
    /// that closed ends the loop instead, leaving the counter as it is).
    pub fn on_delivered(&mut self)
        requires
            old(self).spec_count() < u8::MAX,
        ensures
            final(self).spec_count() == old(self).spec_count() + 1,
    {
        self.0 = self.0 + 1;
    }
}

} // verus!
