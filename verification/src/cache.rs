//! The cache actor: its message surface, its state, and the handlers
//! that the event loop dispatches into.
//!
//! Every handler is a plain, synchronous decision function. The driver
//! of the loop (which owns the command channel and the completion-ordered
//! future multiplexer) hands each observed event to the actor and carries
//! out the returned [`Effect`]: delivering a reply, spawning a background
//! operation, or reporting a task result.

use crate::model::{apply_cmd, init_model, lookup, CacheModel, CmdModel};
use crate::pool::TaskPool;
use vstd::hash_map::StringHashMap;
use vstd::prelude::*;

verus! {

/// An actor message for the [`Cache`].
///
/// A `Get` carries only the key; the single-use reply slot belongs to
/// the driver, which delivers the value found in the returned effect.
#[derive(Debug)]
pub enum Message {
    /// A message to get a value from the cache.
    Get(String),
    /// A message to set a value in the cache.
    Put(String, String),
    /// A clear signal to remove all values from the cache.
    Clear,
    /// A request to start background task `id`.
    Process(u32),
}

impl View for Message {
    type V = CmdModel;

    open spec fn view(&self) -> CmdModel {
        match self {
            Message::Get(k) => CmdModel::Get(k@),
            Message::Put(k, v) => CmdModel::Put(k@, v@),
            Message::Clear => CmdModel::Clear,
            Message::Process(id) => CmdModel::StartTask(*id),
        }
    }
}

/// How a finished background task ended.
#[derive(Clone, Copy, Debug, PartialEq, Eq)]
pub enum TaskStatus {
    Completed,
    Failed,
}

/// An event the loop can observe while running: a client command, or the
/// completion of a background task.
#[derive(Debug)]
pub enum Event {
    Message(Message),
    TaskStatus(u32, TaskStatus),
}

/// Events, at the specification level.
pub enum EventModel {
    Command(CmdModel),
    TaskDone(u32, TaskStatus),
}

impl View for Event {
    type V = EventModel;

    open spec fn view(&self) -> EventModel {
        match self {
            Event::Message(m) => EventModel::Command(m@),
            Event::TaskStatus(id, st) => EventModel::TaskDone(*id, *st),
        }
    }
}

/// What handling an event asks of the driver: nothing, answering a `Get`
/// through the requester's reply slot, spawning background task `id`, or
/// reporting a finished task out of band.
///
/// Delivering a `Reply` may find the requester gone; that is an expected
/// race, to be ignored, not an error.
#[derive(Debug, PartialEq, Eq)]
pub enum Effect {
    Nothing,
    Reply(Option<String>),
    Spawn(u32),
    Report(u32, TaskStatus),
}

/// The view of an optional owned string.
pub open spec fn opt_str(o: Option<String>) -> Option<Seq<char>> {
    match o {
        Some(s) => Some(s@),
        None => None,
    }
}

/// Which effect command `c` must produce in state `m`: a `Get` answers
/// with exactly what the store holds for the key; a `StartTask` asks the
/// driver to spawn that task; `Put` and `Clear` act on the store alone.
pub open spec fn effect_for(m: CacheModel, c: CmdModel, eff: Effect) -> bool {
    match c {
        CmdModel::Get(k) => eff matches Effect::Reply(r) && opt_str(r) == lookup(m, k),
        CmdModel::Put(_, _) => eff == Effect::Nothing,
        CmdModel::Clear => eff == Effect::Nothing,
        CmdModel::StartTask(id) => eff == Effect::Spawn(id),
    }
}

/// How one observed event transforms the actor state: commands act as
/// [`apply_cmd`]; a task completion retires one in-flight task with that
/// id and leaves the store alone.
pub open spec fn apply_event(m: CacheModel, e: EventModel) -> CacheModel {
    match e {
        EventModel::Command(c) => apply_cmd(m, c),
        EventModel::TaskDone(id, _) => CacheModel { pending: m.pending.remove(id), ..m },
    }
}

/// Which effect handling event `e` in state `m` must produce.
pub open spec fn event_effect(m: CacheModel, e: EventModel, eff: Effect) -> bool {
    match e {
        EventModel::Command(c) => effect_for(m, c, eff),
        EventModel::TaskDone(id, st) => eff == Effect::Report(id, st),
    }
}

/// The reference outcome policy: a task with an even id completes, one
/// with an odd id fails.
pub open spec fn outcome_of(id: u32) -> TaskStatus {
    if id % 2 == 0 {
        TaskStatus::Completed
    } else {
        TaskStatus::Failed
    }
}

/// The outcome of background task `id` under the reference policy. The
/// driver's spawned operation yields `(id, task_outcome(id))` once its
/// (id-proportional) simulated work is done.
pub fn task_outcome(id: u32) -> (st: TaskStatus)
    ensures
        st == outcome_of(id),
{
    if id % 2 == 0 {
        TaskStatus::Completed
    } else {
        TaskStatus::Failed
    }
}

/// The view of the key/value mapping as a map of character sequences.
pub open spec fn str_view(m: Map<Seq<char>, String>) -> Map<Seq<char>, Seq<char>> {
    m.map_values(|v: String| v@)
}

/// A simple cache actor: the key/value store it owns, plus the ids of
/// the background tasks currently in flight.
pub struct Cache {
    cache: StringHashMap<String>,
    tasks: TaskPool,
}

impl View for Cache {
    type V = CacheModel;

    closed spec fn view(&self) -> CacheModel {
        CacheModel { store: str_view(self.cache@), pending: self.tasks@ }
    }
}

impl Default for Cache {
    fn default() -> (c: Self)
        ensures
            c@ == init_model(),
    {
        Cache::new()
    }
}

impl Cache {
    /// A fresh actor: empty store, no pending tasks.
    pub fn new() -> (c: Self)
        ensures
            c@ == init_model(),
    {
        let c = Cache { cache: StringHashMap::new(), tasks: TaskPool::new() };
        proof {
            assert(c@.store =~= init_model().store);
            assert(c@ =~= init_model());
        }
        c
    }

    /// Process an event: a command is dispatched to [`Cache::on_message`],
    /// a task completion to [`Cache::on_task_status`].
    pub fn on_event(&mut self, event: Event) -> (eff: Effect)
        requires
            event matches Event::TaskStatus(id, _) ==> old(self)@.pending.count(id) > 0,
        ensures
            final(self)@ == apply_event(old(self)@, event@),
            event_effect(old(self)@, event@, eff),
    {
        match event {
            Event::Message(message) => self.on_message(message),
            Event::TaskStatus(id, task_status) => self.on_task_status(id, task_status),
        }
    }

    /// Apply one command to the store, or enroll a new background task.
    pub fn on_message(&mut self, message: Message) -> (eff: Effect)
        ensures
            final(self)@ == apply_cmd(old(self)@, message@),
            effect_for(old(self)@, message@, eff),
    {
        match message {
            Message::Get(key) => {
                let r: Option<String> = match self.cache.get(key.as_str()) {
                    Some(v) => Some(v.clone()),
                    None => None,
                };
                Effect::Reply(r)
            },
            Message::Put(key, value) => {
                let ghost k = key@;
                let ghost v = value@;
                self.cache.insert(key, value);
                proof {
                    assert(self@.store =~= old(self)@.store.insert(k, v));
                    assert(self@ =~= apply_cmd(old(self)@, CmdModel::Put(k, v)));
                }
                Effect::Nothing
            },
            Message::Clear => {
                self.cache.clear();
                proof {
                    assert(self@.store =~= Map::<Seq<char>, Seq<char>>::empty());
                    assert(self@ =~= apply_cmd(old(self)@, CmdModel::Clear));
                }
                Effect::Nothing
            },
            Message::Process(id) => {
                self.start_task(id);
                Effect::Spawn(id)
            },
        }
    }

    /// Retire the finished task and hand its result to the driver for
    /// out-of-band reporting. A failed task is data, not an exception:
    /// the loop treats it exactly like a completed one.
    pub fn on_task_status(&mut self, id: u32, task_status: TaskStatus) -> (eff: Effect)
        requires
            old(self)@.pending.count(id) > 0,
        ensures
            final(self)@ == apply_event(old(self)@, EventModel::TaskDone(id, task_status)),
            eff == Effect::Report(id, task_status),
    {
        self.tasks.retire(id);
        proof {
            assert(self@ =~= apply_event(old(self)@, EventModel::TaskDone(id, task_status)));
        }
        Effect::Report(id, task_status)
    }

    /// Enroll a new background task. The operation itself is spawned by
    /// the driver (it runs on its own unit of concurrency, so the loop
    /// stays responsive); the actor only records that it is in flight.
    fn start_task(&mut self, id: u32)
        ensures
            final(self)@ == apply_cmd(old(self)@, CmdModel::StartTask(id)),
    {
        self.tasks.enroll(id);
        proof {
            assert(self@ =~= apply_cmd(old(self)@, CmdModel::StartTask(id)));
        }
    }

    /// Whether a task with id `id` is currently in flight.
    pub fn has_pending(&self, id: u32) -> (b: bool)
        ensures
            b == (self@.pending.count(id) > 0),
    {
        self.tasks.contains(id)
    }

    /// How many background tasks are in flight.
    pub fn pending_len(&self) -> (n: usize)
        ensures
            n == self@.pending.len(),
    {
        self.tasks.len()
    }

    /// Whether no background task is in flight.
    pub fn pool_is_empty(&self) -> (b: bool)
        ensures
            b == (self@.pending.len() == 0),
    {
        self.tasks.is_empty()
    }

    /// Whether the store holds no entry.
    pub fn store_is_empty(&self) -> (b: bool)
        ensures
            b == self@.store.is_empty(),
    {
        let b = self.cache.is_empty();
        proof {
            assert(self.cache@.dom() =~= self@.store.dom());
        }
        b
    }

    /// How many entries the store holds.
    pub fn store_len(&self) -> (n: usize)
        ensures
            n == self@.store.len(),
    {
        let n = self.cache.len();
        proof {
            assert(self.cache@.dom() =~= self@.store.dom());
        }
        n
    }
}

} // verus!
