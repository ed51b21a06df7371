//! What a request handler decides: the visit counter of its session and the
//! answer it gives once its message was offered to the pipeline.

use vstd::prelude::*;
use crate::pipeline::SendError;

verus! {

/// What a handler answers.
#[derive(Debug, Clone, Copy, PartialEq, Eq, Structural)]
pub enum Reply {
    /// The message went out: answer with the count of visits.
    Count(i32),
    /// The buffer is full: the handler waits and offers the message again.
    Retry,
    /// The consumer is gone: answer that the service is unavailable.
    Unavailable,
}

/// The counter to store for a visit: one for the first, else one more than
/// the stored count.
pub open spec fn next_count(stored: Option<i32>) -> int {
    match stored {
        Some(count) => count + 1,
        None => 1,
    }
}

/// Counts one visit of a session. A count that no longer fits is not
/// stored: the answer is `None`.
pub fn count_visit(stored: Option<i32>) -> (r: Option<i32>)
    ensures
        next_count(stored) <= i32::MAX ==> r == Some(next_count(stored) as i32),
        next_count(stored) > i32::MAX ==> r is None,
{
    match stored {
        Some(count) => if count < i32::MAX {
            Some(count + 1)
        } else {
            None
        },
        None => Some(1),
    }
}

/// The answer to a request, given the count of visits and what became of
/// the message. A closed channel is no reason to fail the process: the
/// request alone is answered as unavailable.
pub fn reply_for<M>(count: i32, sent: &Result<(), SendError<M>>) -> (reply: Reply)
    ensures
        reply == (match *sent {
            Ok(_) => Reply::Count(count),
            Err(SendError::Full(_)) => Reply::Retry,
            Err(SendError::Closed(_)) => Reply::Unavailable,
        }),
{
    match sent {
        Ok(_) => Reply::Count(count),
        Err(SendError::Full(_)) => Reply::Retry,
        Err(SendError::Closed(_)) => Reply::Unavailable,
    }
}

} // verus!
