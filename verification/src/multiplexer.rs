//! The event multiplexer: the phase machine that governs the life of the
//! loop, `Running -> Draining -> Terminated`.
//!
//! The driver owns the two event sources (the bounded command channel and
//! the completion-ordered task multiplexer), waits on whichever becomes
//! ready first with a fair tie-break, and hands the library each observed
//! input. [`Cache::step`] applies the input and decides the next phase:
//! while `Running`, commands and completions are both served; once the
//! command channel closes, the loop drains the task pool alone; when the
//! drained pool reports empty, the loop terminates and the final actor
//! state passes back to the caller.

use crate::cache::{apply_event, event_effect, Cache, Effect, Event, EventModel, Message, TaskStatus};
use vstd::prelude::*;

verus! {

/// The phase of the event loop.
#[derive(Clone, Copy, Debug, PartialEq, Eq)]
pub enum Phase {
    /// Serving both the command channel and the task pool.
    Running,
    /// The command channel is closed; only task completions remain.
    Draining,
    /// The loop has returned; the actor state belongs to the caller.
    Terminated,
}

/// One observed input to the loop.
#[derive(Debug)]
pub enum LoopInput {
    /// A command arrived on the channel (only while `Running`).
    Command(Message),
    /// The command channel closed: every sender is gone (only while
    /// `Running`; this is the sole shutdown trigger).
    CommandsClosed,
    /// A background task finished (while `Running` or `Draining`).
    TaskDone(u32, TaskStatus),
    /// The drained task pool reported empty (only while `Draining`).
    PoolIdle,
}

impl Cache {
    /// One step of the event multiplexer: applies `input` in `phase` and
    /// returns the next phase together with the effect the driver must
    /// carry out.
    ///
    /// Commands and completions are processed exactly as
    /// [`Cache::on_event`] says, in either serving phase; channel closure
    /// moves the loop to `Draining` without touching the state; an empty
    /// pool while draining terminates the loop, again without touching
    /// the state, so closing the command channel with no pending work
    /// terminates the loop immediately with the then-current store.
    pub fn step(&mut self, phase: Phase, input: LoopInput) -> (r: (Phase, Effect))
        requires
            phase != Phase::Terminated,
            phase == Phase::Running ==> !(input matches LoopInput::PoolIdle),
            phase == Phase::Draining ==> (input matches LoopInput::TaskDone(_, _) || input
                matches LoopInput::PoolIdle),
            input matches LoopInput::TaskDone(id, _) ==> old(self)@.pending.count(id) > 0,
            input matches LoopInput::PoolIdle ==> old(self)@.pending.len() == 0,
        ensures
            (input matches LoopInput::Command(m) ==> r.0 == Phase::Running && final(self)@
                == apply_event(old(self)@, EventModel::Command(m@)) && event_effect(
                old(self)@,
                EventModel::Command(m@),
                r.1,
            )),
            (input == LoopInput::CommandsClosed ==> r.0 == Phase::Draining && final(self)@ == old(
                self,
            )@ && r.1 == Effect::Nothing),
            (input matches LoopInput::TaskDone(id, st) ==> r.0 == phase && final(self)@
                == apply_event(old(self)@, EventModel::TaskDone(id, st)) && r.1 == Effect::Report(
                id,
                st,
            )),
            (input == LoopInput::PoolIdle ==> r.0 == Phase::Terminated && final(self)@ == old(
                self,
            )@ && r.1 == Effect::Nothing),
    {
        match input {
            LoopInput::Command(message) => {
                let eff = self.on_event(Event::Message(message));
                (Phase::Running, eff)
            },
            LoopInput::CommandsClosed => (Phase::Draining, Effect::Nothing),
            LoopInput::TaskDone(id, status) => {
                let eff = self.on_event(Event::TaskStatus(id, status));
                (phase, eff)
            },
            LoopInput::PoolIdle => (Phase::Terminated, Effect::Nothing),
        }
    }
}

} // verus!
