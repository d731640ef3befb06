//! The mathematical model of the actor: its abstract state, the
//! specification-level commands, and the transition functions that the
//! contracts of the executable code refer to.

use vstd::multiset::Multiset;
use vstd::prelude::*;

verus! {

/// Abstract state of the cache actor: the key/value mapping owned by the
/// loop, together with the multiset of ids of background tasks that are
/// currently in flight.
///
/// Task ids form a multiset, not a set: duplicate in-flight ids are a
/// caller error that the actor does not validate, and completions are
/// observed in completion order, so all the actor relies on is how many
/// in-flight tasks carry a given id.
#[verifier::ext_equal]
pub struct CacheModel {
    pub store: Map<Seq<char>, Seq<char>>,
    pub pending: Multiset<u32>,
}

/// The state of a freshly created actor: empty store, no pending tasks.
pub open spec fn init_model() -> CacheModel {
    CacheModel { store: Map::empty(), pending: Multiset::empty() }
}

/// Commands, at the specification level.
pub enum CmdModel {
    Get(Seq<char>),
    Put(Seq<char>, Seq<char>),
    Clear,
    StartTask(u32),
}

/// What a `Get` on `key` answers in state `m`: the stored value, or
/// `None` when the key is absent.
pub open spec fn lookup(m: CacheModel, key: Seq<char>) -> Option<Seq<char>> {
    if m.store.contains_key(key) {
        Some(m.store[key])
    } else {
        None
    }
}

/// How one command transforms the actor state. `Get` is a pure read;
/// `Put` inserts or overwrites; `Clear` empties the store; `StartTask`
/// enrolls a new pending task. No command touches both components.
pub open spec fn apply_cmd(m: CacheModel, c: CmdModel) -> CacheModel {
    match c {
        CmdModel::Get(_) => m,
        CmdModel::Put(k, v) => CacheModel { store: m.store.insert(k, v), ..m },
        CmdModel::Clear => CacheModel { store: Map::empty(), ..m },
        CmdModel::StartTask(id) => CacheModel { pending: m.pending.insert(id), ..m },
    }
}

/// The state after a whole sequence of commands, applied in send order.
pub open spec fn run_cmds(m: CacheModel, cs: Seq<CmdModel>) -> CacheModel
    decreases cs.len(),
{
    if cs.len() == 0 {
        m
    } else {
        run_cmds(apply_cmd(m, cs.first()), cs.drop_first())
    }
}

/// Whether the drain phase accepts the completion order `order` against
/// the pending multiset `p`: every completion must correspond to a task
/// that is still in flight at that point.
pub open spec fn drain_accepts(p: Multiset<u32>, order: Seq<u32>) -> bool
    decreases order.len(),
{
    if order.len() == 0 {
        true
    } else {
        p.count(order.first()) > 0 && drain_accepts(
            p.remove(order.first()),
            order.drop_first(),
        )
    }
}

/// The pending multiset left over after the completions in `order` have
/// been observed, in that order.
pub open spec fn pending_after_drain(p: Multiset<u32>, order: Seq<u32>) -> Multiset<u32>
    decreases order.len(),
{
    if order.len() == 0 {
        p
    } else {
        pending_after_drain(p.remove(order.first()), order.drop_first())
    }
}

} // verus!
