//! The bounded channel as a state machine.
//!
//! A `Pipeline` holds what the channel has buffered, how many producer
//! handles are alive and whether the consumer endpoint still exists. Each
//! operation is one step: it never waits. Where the real channel would
//! suspend its caller, the step reports so (`SendError::Full`,
//! `Received::Pending`) and leaves the state as it was; the caller tries
//! again after the other side has moved.

use vstd::prelude::*;

verus! {

/// Why a channel could not be made.
#[derive(Debug, PartialEq, Eq, Clone, Copy)]
pub enum ChannelError {
    /// The capacity asked for was zero.
    InvalidCapacity,
    /// The capacity asked for is more than a channel can have.
    CapacityTooLarge,
}

/// Why a message was not enqueued. The message is handed back.
#[derive(Debug, PartialEq, Eq)]
pub enum SendError<M> {
    /// The buffer is at capacity: the sender waits for space.
    Full(M),
    /// The consumer endpoint is gone: nothing will ever be delivered.
    Closed(M),
}

/// What one attempt to dequeue gives.
#[derive(Debug, PartialEq, Eq)]
pub enum Received<M> {
    /// The oldest buffered message.
    Message(M),
    /// Nothing is buffered, but a producer is alive: the consumer waits.
    Pending,
    /// Nothing is buffered and no producer is left.
    Closed,
}

/// Where the consumer loop stands after it has taken all that was buffered.
#[derive(Debug, PartialEq, Eq, Clone, Copy)]
pub enum ConsumerStatus {
    /// Producers are alive: more may come.
    Waiting,
    /// The channel is closed and drained: the loop is over.
    Finished,
}

/// The mathematical state of a channel.
pub struct Model<M> {
    pub capacity: nat,
    pub queue: Seq<M>,
    pub producers: nat,
    pub consumer_open: bool,
}

/// One thing that can happen to a channel.
pub enum Event<M> {
    Send(M),
    Receive,
    CloneHandle,
    DropHandle,
    DropConsumer,
}

impl<M> Model<M> {
    /// A channel just made: empty, one producer handle, consumer present.
    pub open spec fn fresh(capacity: nat) -> Self {
        Model { capacity, queue: Seq::empty(), producers: 1, consumer_open: true }
    }

    /// The buffer never holds more than the capacity, which is positive.
    pub open spec fn inv(self) -> bool {
        self.capacity > 0 && self.queue.len() <= self.capacity
    }

    /// A send is taken: a handle exists, the consumer exists, there is room.
    pub open spec fn accepts(self) -> bool {
        self.producers > 0 && self.consumer_open && self.queue.len() < self.capacity
    }

    /// A receive hands a message out.
    pub open spec fn delivers(self) -> bool {
        self.consumer_open && self.queue.len() > 0
    }

    /// No message is buffered and none can come.
    pub open spec fn drained_and_closed(self) -> bool {
        self.producers == 0 && self.queue.len() == 0
    }

    /// What a send through a live handle is answered with.
    pub open spec fn send_reply(self, msg: M) -> Result<(), SendError<M>> {
        if !self.consumer_open {
            Err(SendError::Closed(msg))
        } else if self.queue.len() >= self.capacity {
            Err(SendError::Full(msg))
        } else {
            Ok(())
        }
    }

    /// The state after a send: the message is appended where it is taken.
    pub open spec fn after_send(self, msg: M) -> Self {
        if self.accepts() {
            Model { queue: self.queue.push(msg), ..self }
        } else {
            self
        }
    }

    /// What the consumer is answered with when it asks for a message.
    pub open spec fn receive_reply(self) -> Received<M> {
        if self.queue.len() > 0 {
            Received::Message(self.queue[0])
        } else if self.producers == 0 {
            Received::Closed
        } else {
            Received::Pending
        }
    }

    /// The state after a receive: the oldest message is gone where one was
    /// handed out.
    pub open spec fn after_receive(self) -> Self {
        if self.delivers() {
            Model { queue: self.queue.remove(0), ..self }
        } else {
            self
        }
    }

    /// A live handle was cloned: one more producer.
    pub open spec fn after_clone_handle(self) -> Self {
        if self.producers > 0 {
            Model { producers: self.producers + 1, ..self }
        } else {
            self
        }
    }

    /// A live handle was dropped: one producer less.
    pub open spec fn after_drop_handle(self) -> Self {
        if self.producers > 0 {
            Model { producers: (self.producers - 1) as nat, ..self }
        } else {
            self
        }
    }

    /// Dropping the consumer discards what was still buffered.
    pub open spec fn after_drop_consumer(self) -> Self {
        Model { queue: Seq::empty(), consumer_open: false, ..self }
    }

    /// The state after one event.
    pub open spec fn step(self, e: Event<M>) -> Self {
        match e {
            Event::Send(m) => self.after_send(m),
            Event::Receive => self.after_receive(),
            Event::CloneHandle => self.after_clone_handle(),
            Event::DropHandle => self.after_drop_handle(),
            Event::DropConsumer => self.after_drop_consumer(),
        }
    }

    /// The messages that the event puts into the channel: one or none.
    pub open spec fn accepted_by(self, e: Event<M>) -> Seq<M> {
        match e {
            Event::Send(m) => if self.accepts() { seq![m] } else { Seq::empty() },
            _ => Seq::empty(),
        }
    }

    /// The messages that the event hands to the consumer: one or none.
    pub open spec fn delivered_by(self, e: Event<M>) -> Seq<M> {
        match e {
            Event::Receive => if self.delivers() { seq![self.queue[0]] } else { Seq::empty() },
            _ => Seq::empty(),
        }
    }
}

/// The state after all events of `trace`, in order.
pub open spec fn run<M>(s: Model<M>, trace: Seq<Event<M>>) -> Model<M>
    decreases trace.len(),
{
    if trace.len() == 0 {
        s
    } else {
        run(s, trace.drop_last()).step(trace.last())
    }
}

/// The messages that the channel took during `trace`, in order.
pub open spec fn accepted<M>(s: Model<M>, trace: Seq<Event<M>>) -> Seq<M>
    decreases trace.len(),
{
    if trace.len() == 0 {
        Seq::empty()
    } else {
        accepted(s, trace.drop_last()) + run(s, trace.drop_last()).accepted_by(trace.last())
    }
}

/// The messages that the consumer got during `trace`, in order.
pub open spec fn delivered<M>(s: Model<M>, trace: Seq<Event<M>>) -> Seq<M>
    decreases trace.len(),
{
    if trace.len() == 0 {
        Seq::empty()
    } else {
        delivered(s, trace.drop_last()) + run(s, trace.drop_last()).delivered_by(trace.last())
    }
}

/// The state after sending each of `msgs` in turn, with nothing received.
pub open spec fn send_all<M>(s: Model<M>, msgs: Seq<M>) -> Model<M>
    decreases msgs.len(),
{
    if msgs.len() == 0 {
        s
    } else {
        send_all(s, msgs.drop_last()).after_send(msgs.last())
    }
}

/// A bounded first-in-first-out channel of messages.
pub struct Pipeline<M> {
    capacity: usize,
    queue: Vec<M>,
    producers: usize,
    consumer_open: bool,
}

impl<M> View for Pipeline<M> {
    type V = Model<M>;

    closed spec fn view(&self) -> Model<M> {
        Model {
            capacity: self.capacity as nat,
            queue: self.queue@,
            producers: self.producers as nat,
            consumer_open: self.consumer_open,
        }
    }
}

impl<M> Pipeline<M> {
    /// What every pipeline satisfies between calls.
    pub open spec fn inv(&self) -> bool {
        self@.inv()
    }

    /// Makes a channel of the given capacity with its first producer handle
    /// and its consumer endpoint. Only a capacity of zero is refused.
    pub fn create(capacity: usize) -> (r: Result<Pipeline<M>, ChannelError>)
        ensures
            capacity == 0 <==> r == Err::<Pipeline<M>, ChannelError>(ChannelError::InvalidCapacity),
            capacity > 0 ==> r is Ok && r->Ok_0.inv() && r->Ok_0@ == Model::<M>::fresh(
                capacity as nat,
            ),
    {
        if capacity == 0 {
            Err(ChannelError::InvalidCapacity)
        } else {
            Ok(Pipeline { capacity, queue: Vec::new(), producers: 1, consumer_open: true })
        }
    }

    /// Offers a message through a producer handle. It is appended behind all
    /// buffered messages, or handed back: with `Closed` once the consumer is
    /// gone, with `Full` while the buffer is at capacity.
    pub fn send(&mut self, msg: M) -> (r: Result<(), SendError<M>>)
        requires
            old(self).inv(),
            old(self)@.producers > 0,
        ensures
            final(self).inv(),
            r == old(self)@.send_reply(msg),
            final(self)@ == old(self)@.after_send(msg),
    {
        if !self.consumer_open {
            Err(SendError::Closed(msg))
        } else if self.queue.len() >= self.capacity {
            Err(SendError::Full(msg))
        } else {
            self.queue.push(msg);
            Ok(())
        }
    }

    /// Takes the oldest buffered message, if there is one. Otherwise says
    /// whether the consumer must wait or the channel is closed for good.
    pub fn receive(&mut self) -> (r: Received<M>)
        requires
            old(self).inv(),
            old(self)@.consumer_open,
        ensures
            final(self).inv(),
            r == old(self)@.receive_reply(),
            final(self)@ == old(self)@.after_receive(),
    {
        if self.queue.len() > 0 {
            let msg = self.queue.remove(0);
            Received::Message(msg)
        } else if self.producers == 0 {
            Received::Closed
        } else {
            Received::Pending
        }
    }

    /// Registers one more producer handle made from a live one. Reports
    /// `false`, and changes nothing, where the count of handles cannot grow.
    pub fn clone_handle(&mut self) -> (made: bool)
        requires
            old(self).inv(),
            old(self)@.producers > 0,
        ensures
            final(self).inv(),
            made == (old(self)@.producers < usize::MAX),
            made ==> final(self)@ == old(self)@.after_clone_handle(),
            !made ==> final(self)@ == old(self)@,
    {
        if self.producers < usize::MAX {
            self.producers = self.producers + 1;
            true
        } else {
            false
        }
    }

    /// Retires one producer handle. What it had sent stays buffered.
    pub fn drop_handle(&mut self)
        requires
            old(self).inv(),
            old(self)@.producers > 0,
        ensures
            final(self).inv(),
            final(self)@ == old(self)@.after_drop_handle(),
    {
        self.producers = self.producers - 1;
    }

    /// Retires the consumer endpoint: what was buffered is discarded and
    /// every later send is handed back as `Closed`.
    pub fn drop_consumer(&mut self)
        requires
            old(self).inv(),
        ensures
            final(self).inv(),
            final(self)@ == old(self)@.after_drop_consumer(),
    {
        self.queue = Vec::new();
        self.consumer_open = false;
    }

    /// The capacity that the channel was made with.
    pub fn capacity(&self) -> (c: usize)
        ensures
            c == self@.capacity,
    {
        self.capacity
    }

    /// How many messages are buffered.
    pub fn len(&self) -> (n: usize)
        ensures
            n == self@.queue.len(),
    {
        self.queue.len()
    }

    /// How many producer handles are alive.
    pub fn producers(&self) -> (n: usize)
        ensures
            n == self@.producers,
    {
        self.producers
    }

    /// Whether the consumer endpoint is gone.
    pub fn is_closed(&self) -> (b: bool)
        ensures
            b == !self@.consumer_open,
    {
        !self.consumer_open
    }

    /// One turn of the consumer loop: takes every buffered message, oldest
    /// first, and appends it to `sink`. The loop is over once the channel is
    /// closed as well; until then the consumer waits for more.
    pub fn consume_ready(&mut self, sink: &mut Vec<M>) -> (status: ConsumerStatus)
        requires
            old(self).inv(),
            old(self)@.consumer_open,
        ensures
            final(self).inv(),
            final(sink)@ == old(sink)@ + old(self)@.queue,
            final(self)@ == (Model { queue: Seq::empty(), ..old(self)@ }),
            status == (if old(self)@.producers == 0 {
                ConsumerStatus::Finished
            } else {
                ConsumerStatus::Waiting
            }),
    {
        let ghost before = self@;
        let ghost sunk = sink@;
        let mut taken: usize = 0;
        proof {
            assert(before.queue.skip(0) =~= before.queue);
            assert(sunk + before.queue.take(0) =~= sunk);
        }
        loop
            invariant
                self.inv(),
                self@.consumer_open,
                before == old(self)@,
                sunk == old(sink)@,
                before.queue.len() <= usize::MAX,
                0 <= taken <= before.queue.len(),
                self@ == (Model { queue: before.queue.skip(taken as int), ..before }),
                sink@ == sunk + before.queue.take(taken as int),
            decreases before.queue.len() - taken,
        {
            match self.receive() {
                Received::Message(msg) => {
                    sink.push(msg);
                    proof {
                        assert(before.queue.skip(taken as int).len() > 0);
                        assert(before.queue.skip(taken as int).remove(0) =~= before.queue.skip(
                            taken + 1,
                        ));
                        assert(before.queue.take(taken as int).push(before.queue[taken as int])
                            =~= before.queue.take(taken + 1));
                        assert((sunk + before.queue.take(taken as int)).push(
                            before.queue[taken as int],
                        ) =~= sunk + before.queue.take(taken + 1));
                    }
                    taken = taken + 1;
                },
                Received::Pending => {
                    proof {
                        assert(before.queue.skip(taken as int).len() == 0);
                        assert(taken == before.queue.len());
                        assert(before.queue.take(taken as int) =~= before.queue);
                        assert(before.queue.skip(taken as int) =~= Seq::<M>::empty());
                        assert(sink@ == sunk + before.queue);
                    }
                    return ConsumerStatus::Waiting;
                },
                Received::Closed => {
                    proof {
                        assert(before.queue.skip(taken as int).len() == 0);
                        assert(taken == before.queue.len());
                        assert(before.queue.take(taken as int) =~= before.queue);
                        assert(before.queue.skip(taken as int) =~= Seq::<M>::empty());
                        assert(sink@ == sunk + before.queue);
                    }
                    return ConsumerStatus::Finished;
                },
            }
        }
    }
}

} // verus!
