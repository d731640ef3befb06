//! Laws of the actor, stated over the model in `model` and proved once
//! and for all. Each one is a property the contracts of the executable
//! handlers promise to every driver of the loop.

use crate::model::{
    apply_cmd, drain_accepts, init_model, lookup, pending_after_drain, run_cmds, CacheModel,
    CmdModel,
};
use vstd::multiset::Multiset;
use vstd::prelude::*;

verus! {

broadcast use {
    vstd::multiset::group_multiset_axioms,
    vstd::seq_lib::group_to_multiset_ensures,
};

/// Setting a key and then getting it yields exactly the value set, in
/// any state and for any key and value.
pub proof fn lemma_set_then_get(m: CacheModel, k: Seq<char>, v: Seq<char>)
    ensures
        lookup(apply_cmd(m, CmdModel::Put(k, v)), k) == Some(v),
{
}

/// Clearing empties the store: after a `Clear`, a `Get` on any key
/// whatsoever (previously set or not) yields nothing, whatever sequence
/// of commands came before.
pub proof fn lemma_clear_then_get(m: CacheModel, k: Seq<char>)
    ensures
        lookup(apply_cmd(m, CmdModel::Clear), k) == None::<Seq<char>>,
{
}

/// Whether command `c` writes key `k`.
pub open spec fn writes_key(c: CmdModel, k: Seq<char>) -> bool {
    c matches CmdModel::Put(k2, _) && k2 == k
}

/// A key that no command of `cs` writes, and that `m` does not hold,
/// is still absent after the whole sequence has run.
proof fn lemma_absent_key_preserved(m: CacheModel, cs: Seq<CmdModel>, k: Seq<char>)
    requires
        !m.store.contains_key(k),
        forall|i: int| 0 <= i < cs.len() ==> !writes_key(#[trigger] cs[i], k),
    ensures
        !run_cmds(m, cs).store.contains_key(k),
    decreases cs.len(),
{
    if cs.len() > 0 {
        let m2 = apply_cmd(m, cs.first());
        assert(!writes_key(cs[0], k));
        assert(forall|i: int|
            0 <= i < cs.drop_first().len() ==> !writes_key(#[trigger] cs.drop_first()[i], k));
        lemma_absent_key_preserved(m2, cs.drop_first(), k);
    }
}

/// Getting a key that was never set yields nothing: starting from a
/// fresh actor, a `Get` on `k` answers `None` as long as no command of
/// the sequence so far wrote `k`.
pub proof fn lemma_get_before_set(cs: Seq<CmdModel>, k: Seq<char>)
    requires
        forall|i: int| 0 <= i < cs.len() ==> !writes_key(#[trigger] cs[i], k),
    ensures
        lookup(run_cmds(init_model(), cs), k) == None::<Seq<char>>,
{
    lemma_absent_key_preserved(init_model(), cs, k);
}

/// Whether command `c` can change what a `Get` on `k` answers.
pub open spec fn touches_key(c: CmdModel, k: Seq<char>) -> bool {
    writes_key(c, k) || c matches CmdModel::Clear
}

/// A sequence of commands none of which writes `k` or clears the store
/// leaves what a `Get` on `k` answers untouched.
proof fn lemma_value_preserved(m: CacheModel, cs: Seq<CmdModel>, k: Seq<char>)
    requires
        forall|i: int| 0 <= i < cs.len() ==> !touches_key(#[trigger] cs[i], k),
    ensures
        lookup(run_cmds(m, cs), k) == lookup(m, k),
    decreases cs.len(),
{
    if cs.len() > 0 {
        assert(!touches_key(cs[0], k));
        assert(forall|i: int|
            0 <= i < cs.drop_first().len() ==> !touches_key(#[trigger] cs.drop_first()[i], k));
        lemma_value_preserved(apply_cmd(m, cs.first()), cs.drop_first(), k);
    }
}

/// Read consistency: a `Get` reflects every mutation processed strictly
/// before it. After the command at position `i` sets `k` to `v`, as long
/// as no later command writes `k` or clears the store, a `Get` on `k`
/// answers exactly `v`, whatever came before and whatever happened to
/// other keys since.
pub proof fn lemma_read_consistency(
    m: CacheModel,
    cs: Seq<CmdModel>,
    i: int,
    k: Seq<char>,
    v: Seq<char>,
)
    requires
        0 <= i < cs.len(),
        cs[i] == CmdModel::Put(k, v),
        forall|j: int| i < j < cs.len() ==> !touches_key(#[trigger] cs[j], k),
    ensures
        lookup(run_cmds(m, cs), k) == Some(v),
    decreases cs.len(),
{
    let m2 = apply_cmd(m, cs.first());
    if i == 0 {
        assert(forall|j: int|
            0 <= j < cs.drop_first().len() ==> !touches_key(#[trigger] cs.drop_first()[j], k));
        lemma_value_preserved(m2, cs.drop_first(), k);
    } else {
        assert(cs.drop_first()[i - 1] == cs[i]);
        assert(forall|j: int|
            i - 1 < j < cs.drop_first().len() ==> !touches_key(#[trigger] cs.drop_first()[j], k));
        lemma_read_consistency(m2, cs.drop_first(), i - 1, k, v);
    }
}

/// Drain completeness: whatever completion order the task multiplexer
/// produces, as long as its ids are exactly the pending ones (each task
/// finishing exactly once), the drain phase accepts every completion and
/// ends with an empty pool, after exactly one completion per pending
/// task.
pub proof fn lemma_drain_completeness(p: Multiset<u32>, order: Seq<u32>)
    requires
        order.to_multiset() == p,
    ensures
        drain_accepts(p, order),
        pending_after_drain(p, order) == Multiset::<u32>::empty(),
        order.len() == p.len(),
    decreases order.len(),
{
    if order.len() == 0 {
        vstd::multiset::lemma_multiset_empty_len(p);
    } else {
        let id = order.first();
        assert(order.contains(id));
        assert(p.count(id) > 0);
        assert(order.drop_first() =~= order.remove(0));
        assert(order.drop_first().to_multiset() == p.remove(id));
        lemma_drain_completeness(p.remove(id), order.drop_first());
    }
}

} // verus!
