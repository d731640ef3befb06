//! A forwarder that passes received messages to a sink and emits a ping
//! on every timer tick. A reference pattern beside the cache actor: one
//! channel, one timer, no task pool.

use vstd::prelude::*;

verus! {

/// The message a tick of the forwarder's timer emits.
pub const PING: u8 = 4;

/// The stateless ping forwarder.
#[derive(Debug, PartialEq, Eq)]
pub struct Forwarder;

impl Default for Forwarder {
    fn default() -> (f: Self)
        ensures
            f == (Forwarder),
    {
        Forwarder
    }
}

impl Forwarder {
    /// The message to hand to the sink on a timer tick; a message
    /// received on the channel is forwarded as it is instead.
    pub fn on_tick(&self) -> (m: u8)
        ensures
            m == PING,
    {
        PING
    }
}

} // verus!
