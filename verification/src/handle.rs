//! The shared producer handle and the consumer endpoint of a live channel.
//!
//! The channel itself is tokio's bounded `mpsc` channel. Other handles and
//! other threads change it at any time, so nothing here says what it holds:
//! the contracts state what is true of each call whatever the other side
//! did. What a channel is bound to do is stated and proved on the state
//! machine of `pipeline`.

use vstd::prelude::*;
use tokio::sync::mpsc::error::{TryRecvError, TrySendError};
use tokio::sync::mpsc::{Receiver, Sender};
use crate::pipeline::{ChannelError, ConsumerStatus, Received, SendError};

verus! {

/// `tokio::sync::mpsc::Sender`, the producer side of a bounded channel.
/// Nothing inside it is visible to the proofs.
#[verifier::external_type_specification]
#[verifier::external_body]
#[verifier::reject_recursive_types(T)]
pub struct ExSender<T>(tokio::sync::mpsc::Sender<T>);

/// `tokio::sync::mpsc::Receiver`, the consumer side of a bounded channel.
/// Nothing inside it is visible to the proofs.
#[verifier::external_type_specification]
#[verifier::external_body]
#[verifier::reject_recursive_types(T)]
pub struct ExReceiver<T>(tokio::sync::mpsc::Receiver<T>);

/// The largest capacity that a channel can be made with.
pub open spec fn max_capacity() -> nat {
    (usize::MAX / 8) as nat
}

/// The capacity that the channel behind a handle was made with: what
/// `Sender::max_capacity` reports of it.
pub uninterp spec fn bound_of(sender: Sender<String>) -> nat;

/// `tokio::sync::mpsc::channel`: makes a bounded channel. It panics on a
/// capacity of zero and on one above an eighth of the address space, which
/// the precondition leaves out. The channel keeps the capacity it was asked
/// for; nothing else is claimed of the two ends.
#[verifier::external_body]
fn open_channel(capacity: usize) -> (ends: (Sender<String>, Receiver<String>))
    requires
        0 < capacity <= max_capacity(),
    ensures
        bound_of(ends.0) == capacity,
{
    tokio::sync::mpsc::channel(capacity)
}

/// `Sender::clone`: another handle to the same channel, which therefore has
/// the same capacity.
#[verifier::external_body]
fn clone_sender(sender: &Sender<String>) -> (copy: Sender<String>)
    ensures
        bound_of(copy) == bound_of(*sender),
{
    sender.clone()
}

/// `Sender::max_capacity`: the capacity that the channel was made with,
/// whatever it holds at the moment.
#[verifier::external_body]
fn sender_bound(sender: &Sender<String>) -> (bound: usize)
    ensures
        bound == bound_of(*sender),
{
    sender.max_capacity()
}

/// `Sender::try_send`: enqueues the message if there is room and the
/// receiver exists. Otherwise the message comes back unchanged, as `Full`
/// or as `Closed`. Which of the three happens depends on the other users of
/// the channel.
#[verifier::external_body]
fn try_send(sender: &Sender<String>, msg: String) -> (r: Result<(), SendError<String>>)
    ensures
        match r {
            Ok(_) => true,
            Err(SendError::Full(back)) => back == msg,
            Err(SendError::Closed(back)) => back == msg,
        },
{
    match sender.try_send(msg) {
        Ok(()) => Ok(()),
        Err(TrySendError::Full(back)) => Err(SendError::Full(back)),
        Err(TrySendError::Closed(back)) => Err(SendError::Closed(back)),
    }
}

/// `Receiver::try_recv`: the oldest buffered message, or the news that the
/// channel is empty, or that it is empty and every sender is gone. Nothing
/// is claimed of which.
#[verifier::external_body]
fn try_recv(receiver: &mut Receiver<String>) -> (r: Received<String>) {
    match receiver.try_recv() {
        Ok(msg) => Received::Message(msg),
        Err(TryRecvError::Empty) => Received::Pending,
        Err(TryRecvError::Disconnected) => Received::Closed,
    }
}

/// The shared producer handle: each request handler holds a clone.
pub struct Pipechannel {
    pub sender: Sender<String>,
}

/// The consumer endpoint, owned by the background consumer.
pub struct Consumer {
    pub receiver: Receiver<String>,
}

/// Which error a request for a channel of `capacity` gets, if any.
pub open spec fn capacity_error(capacity: usize) -> Option<ChannelError> {
    if capacity == 0 {
        Some(ChannelError::InvalidCapacity)
    } else if capacity > max_capacity() {
        Some(ChannelError::CapacityTooLarge)
    } else {
        None
    }
}

/// Makes a channel of the given capacity and hands out its first producer
/// handle and its consumer endpoint. A capacity of zero is invalid; one
/// above an eighth of the address space is more than a channel can have.
pub fn channel(capacity: usize) -> (r: Result<(Pipechannel, Consumer), ChannelError>)
    ensures
        match capacity_error(capacity) {
            Some(e) => r is Err && r->Err_0 == e,
            None => r is Ok && bound_of(r->Ok_0.0.sender) == capacity,
        },
{
    if capacity == 0 {
        Err(ChannelError::InvalidCapacity)
    } else if capacity > usize::MAX / 8 {
        Err(ChannelError::CapacityTooLarge)
    } else {
        let (sender, receiver) = open_channel(capacity);
        Ok((Pipechannel::build(sender), Consumer { receiver }))
    }
}

impl Pipechannel {
    /// Wraps the producer side of a channel.
    pub fn build(sender: Sender<String>) -> (handle: Pipechannel)
        ensures
            handle.sender == sender,
    {
        Pipechannel { sender: sender }
    }

    /// The capacity of the channel behind this handle.
    pub fn capacity(&self) -> (bound: usize)
        ensures
            bound == bound_of(self.sender),
    {
        sender_bound(&self.sender)
    }

    /// Offers a message without waiting. A message that was not taken comes
    /// back unchanged: as `Full` while the buffer is at capacity, as
    /// `Closed` once the consumer endpoint is gone.
    pub fn offer(&self, msg: String) -> (r: Result<(), SendError<String>>)
        ensures
            match r {
                Ok(_) => true,
                Err(SendError::Full(back)) => back == msg,
                Err(SendError::Closed(back)) => back == msg,
            },
    {
        try_send(&self.sender, msg)
    }
}

impl Clone for Pipechannel {
    /// Another handle to the same channel.
    fn clone(&self) -> (copy: Self)
        ensures
            bound_of(copy.sender) == bound_of(self.sender),
    {
        Self { sender: clone_sender(&self.sender) }
    }
}

/// Where the consumer stands after a poll that gave `last`; `None` while
/// it may go on.
pub open spec fn turn_end(last: Received<String>) -> Option<ConsumerStatus> {
    match last {
        Received::Message(_) => None,
        Received::Pending => Some(ConsumerStatus::Waiting),
        Received::Closed => Some(ConsumerStatus::Finished),
    }
}

/// What the consumer does with the answer to one poll: a message is
/// appended to `sink` and the loop goes on; otherwise nothing is appended
/// and the loop waits, or is over once the channel is closed.
pub fn absorb(sink: &mut Vec<String>, polled: Received<String>) -> (end: Option<ConsumerStatus>)
    ensures
        end == turn_end(polled),
        final(sink)@ == (match polled {
            Received::Message(msg) => old(sink)@.push(msg),
            _ => old(sink)@,
        }),
{
    match polled {
        Received::Message(msg) => {
            sink.push(msg);
            None
        },
        Received::Pending => Some(ConsumerStatus::Waiting),
        Received::Closed => Some(ConsumerStatus::Finished),
    }
}

impl Consumer {
    /// One turn of the consumer loop: takes buffered messages one at a
    /// time, oldest first, and appends each to `sink`, until the channel is
    /// empty or `limit` messages were taken. What `sink` held stays in
    /// front. `None` says that the limit was reached; otherwise the status
    /// says whether the channel is closed and drained.
    pub fn take_ready(&mut self, sink: &mut Vec<String>, limit: usize) -> (end: Option<
        ConsumerStatus,
    >)
        ensures
            old(sink)@.is_prefix_of(final(sink)@),
            final(sink)@.len() <= old(sink)@.len() + limit,
            end is None <==> final(sink)@.len() == old(sink)@.len() + limit,
    {
        let mut taken: usize = 0;
        while taken < limit
            invariant
                taken <= limit,
                old(sink)@.is_prefix_of(sink@),
                sink@.len() == old(sink)@.len() + taken,
            decreases limit - taken,
        {
            let polled = try_recv(&mut self.receiver);
            let end = absorb(sink, polled);
            match end {
                Some(status) => {
                    return Some(status);
                },
                None => {
                    taken = taken + 1;
                },
            }
        }
        None
    }
}

} // verus!
