//! Bookkeeping for the task pool: the multiset of ids of background
//! tasks currently in flight.
//!
//! The pool of running operations itself is a completion-ordered future
//! multiplexer owned by the driver of the loop; the library tracks which
//! ids are enrolled, so that the shutdown protocol can be stated and
//! proved over it.

use vstd::multiset::Multiset;
use vstd::prelude::*;

verus! {

broadcast use {
    vstd::multiset::group_multiset_axioms,
    vstd::seq_lib::group_to_multiset_ensures,
};

/// The ids of the background tasks currently in flight, viewed as a
/// multiset (completions arrive in completion order, not insertion
/// order, so no order is kept).
pub struct TaskPool {
    ids: Vec<u32>,
}

impl View for TaskPool {
    type V = Multiset<u32>;

    closed spec fn view(&self) -> Multiset<u32> {
        self.ids@.to_multiset()
    }
}

impl TaskPool {
    /// An empty pool.
    pub fn new() -> (p: Self)
        ensures
            p@ == Multiset::<u32>::empty(),
    {
        let p = TaskPool { ids: Vec::new() };
        proof {
            vstd::multiset::lemma_multiset_empty_len(p@);
        }
        p
    }

    /// The number of tasks in flight.
    pub fn len(&self) -> (n: usize)
        ensures
            n == self@.len(),
    {
        self.ids.len()
    }

    /// Whether no task is in flight.
    pub fn is_empty(&self) -> (b: bool)
        ensures
            b == (self@.len() == 0),
    {
        self.ids.len() == 0
    }

    /// Enrolls a new task id.
    pub fn enroll(&mut self, id: u32)
        ensures
            final(self)@ == old(self)@.insert(id),
    {
        self.ids.push(id);
        proof {
            assert(self@ =~= old(self)@.insert(id));
        }
    }

    /// Whether a task with id `id` is in flight.
    pub fn contains(&self, id: u32) -> (b: bool)
        ensures
            b == (self@.count(id) > 0),
    {
        let n = self.ids.len();
        let mut i: usize = 0;
        while i < n
            invariant
                n == self.ids@.len(),
                0 <= i <= n,
                forall|j: int| 0 <= j < i ==> self.ids@[j] != id,
            decreases n - i,
        {
            if self.ids[i] == id {
                return true;
            }
            i += 1;
        }
        proof {
            assert(!self.ids@.contains(id));
        }
        false
    }

    /// Retires one in-flight task with id `id` upon its completion.
    pub fn retire(&mut self, id: u32)
        requires
            old(self)@.count(id) > 0,
        ensures
            final(self)@ == old(self)@.remove(id),
    {
        proof {
            assert(self.ids@.contains(id));
        }
        let n = self.ids.len();
        let mut i: usize = 0;
        while i < n
            invariant
                n == self.ids@.len(),
                0 <= i <= n,
                forall|j: int| 0 <= j < i ==> self.ids@[j] != id,
                self.ids@.contains(id),
                self.ids@ == old(self).ids@,
            decreases n - i,
        {
            if self.ids[i] == id {
                self.ids.remove(i);
                proof {
                    assert(self@ =~= old(self)@.remove(id));
                }
                return;
            }
            i += 1;
        }
        proof {
            assert(false);
        }
    }
}

} // verus!
