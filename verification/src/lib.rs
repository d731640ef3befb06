//! A single-actor event loop serving client commands against an in-memory
//! key/value store while supervising a dynamically growing and shrinking
//! pool of background tasks.
//!
//! The verified core is the decision logic of the actor: how each command
//! and each task completion transforms the actor state, and the phase
//! machine (`Running -> Draining -> Terminated`) that governs shutdown.
//! The asynchronous plumbing (channels, timers, the completion-ordered
//! future multiplexer) lives outside the library and drives these
//! functions with the events it observes.

pub mod beacon;
pub mod cache;
pub mod collector;
pub mod forwarder;
pub mod laws;
pub mod model;
pub mod multiplexer;
pub mod pool;
pub mod unique_id;
