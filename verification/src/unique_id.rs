//! A trivial sequential-counter actor: each request is answered with a
//! fresh id. A reference pattern beside the cache actor; its loop is a
//! plain receive loop with no task pool.

use vstd::prelude::*;

verus! {

/// An actor message for the [`UniqueIdService`]. The single-use reply
/// slot belongs to the driver, which delivers the returned id through
/// it (and ignores a requester that stopped listening).
pub enum Message {
    GetUniqueId,
}

/// The sequential id counter.
#[derive(Debug, PartialEq, Eq)]
pub struct UniqueIdService {
    next_id: u32,
}

impl UniqueIdService {
    /// The id the next request will receive.
    pub closed spec fn spec_next_id(&self) -> u32 {
        self.next_id
    }

    /// A fresh service, whose first answer is 0.
    pub fn new() -> (s: Self)
        ensures
            s.spec_next_id() == 0,
    {
        UniqueIdService { next_id: 0 }
    }

    /// Answer one request: hand out the current id, then advance the
    /// counter, so that no two requests ever receive the same id.
    pub fn handle_message(&mut self, message: Message) -> (id: u32)
        requires
            old(self).spec_next_id() < u32::MAX,
        ensures
            id == old(self).spec_next_id(),
            final(self).spec_next_id() == old(self).spec_next_id() + 1,
    {
        match message {
            Message::GetUniqueId => {
                let id = self.next_id;
                self.next_id = self.next_id + 1;
                id
            },
        }
    }

    /// The id the next request will receive.
    pub fn peek_next_id(&self) -> (id: u32)
        ensures
            id == self.spec_next_id(),
    {
        self.next_id
    }
}

} // verus!
