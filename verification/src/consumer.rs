//! The decisions of the background consumer.
//!
//! The consumer waits for the next message, processes it, and waits again,
//! strictly one message at a time. A message whose processing fails is
//! counted and the loop goes on; only the closure of the channel ends it.

use vstd::prelude::*;

verus! {

/// What the consumer does next.
#[derive(Debug, PartialEq, Eq)]
pub enum Action<M> {
    /// Process this message, then wait for the next.
    Process(M),
    /// The channel is closed and drained: the loop is over.
    Finish,
}

/// The consumer's account of its work.
#[derive(Debug, Clone, Copy, PartialEq, Eq, Structural)]
pub struct Tally {
    /// Messages whose processing succeeded.
    pub processed: u64,
    /// Messages whose processing failed.
    pub failed: u64,
}

/// What to do with the answer to a wait for the next message: a message is
/// processed, the closed channel ends the loop.
pub fn next_action<M>(received: Option<M>) -> (action: Action<M>)
    ensures
        action == (match received {
            Some(msg) => Action::Process(msg),
            None => Action::Finish,
        }),
{
    match received {
        Some(msg) => Action::Process(msg),
        None => Action::Finish,
    }
}

impl Tally {
    /// The account before any message.
    pub fn new() -> (t: Tally)
        ensures
            t == (Tally { processed: 0, failed: 0 }),
    {
        Tally { processed: 0, failed: 0 }
    }

    /// The account after one more message, processed with `ok` or not. A
    /// counter that is full stays as it is.
    pub open spec fn after(self, ok: bool) -> Tally {
        if ok {
            Tally {
                processed: if self.processed < u64::MAX {
                    (self.processed + 1) as u64
                } else {
                    self.processed
                },
                ..self
            }
        } else {
            Tally {
                failed: if self.failed < u64::MAX {
                    (self.failed + 1) as u64
                } else {
                    self.failed
                },
                ..self
            }
        }
    }

    /// Records what became of one message. The answer is whether the loop
    /// goes on, and it always does: a failure concerns that message alone.
    pub fn record<T, E>(&mut self, result: &Result<T, E>) -> (go_on: bool)
        ensures
            go_on,
            *final(self) == old(self).after(*result is Ok),
    {
        if result.is_ok() {
            self.processed = self.processed.saturating_add(1);
        } else {
            self.failed = self.failed.saturating_add(1);
        }
        true
    }
}

} // verus!
