//! A request-to-worker pipeline: a bounded first-in-first-out channel fed by
//! any number of producer handles and drained by one consumer, together with
//! the decisions of a supervisor that stops as soon as either of its two
//! tasks finishes.

pub mod consumer;
pub mod delivery;
pub mod handle;
pub mod handler;
pub mod pipeline;
pub mod supervisor;
pub mod users;
