//! What holds of every run of a channel: order, conservation of messages,
//! backpressure and the finality of closure.

use vstd::prelude::*;
use crate::pipeline::{Event, Model, Received, SendError, accepted, delivered, run, send_all};

verus! {

/// Whatever happens to a channel, the consumer gets the messages in the
/// order in which the channel took them: what has been delivered is always
/// the front of what was buffered at the start followed by what was taken.
/// While the consumer exists nothing is lost or made up either: what was
/// buffered and taken is exactly what was delivered followed by what is
/// still buffered.
pub proof fn lemma_delivery_in_order<M>(s: Model<M>, trace: Seq<Event<M>>)
    requires
        s.inv(),
    ensures
        run(s, trace).inv(),
        run(s, trace).capacity == s.capacity,
        run(s, trace).consumer_open ==> s.consumer_open,
        delivered(s, trace).is_prefix_of(s.queue + accepted(s, trace)),
        run(s, trace).consumer_open ==> s.queue + accepted(s, trace) == delivered(s, trace) + run(
            s,
            trace,
        ).queue,
    decreases trace.len(),
{
    if trace.len() == 0 {
        assert(s.queue + accepted(s, trace) =~= delivered(s, trace) + s.queue);
    } else {
        let init = trace.drop_last();
        let e = trace.last();
        let p = run(s, init);
        lemma_delivery_in_order(s, init);
        let acc = accepted(s, init);
        let del = delivered(s, init);
        let all = s.queue + acc;
        let all_after = s.queue + accepted(s, trace);
        assert(all_after =~= all + p.accepted_by(e));
        assert(del =~= all.subrange(0, del.len() as int));
        if p.consumer_open {
            assert(all == del + p.queue);
            match e {
                Event::Send(m) => {
                    if p.accepts() {
                        assert(all_after =~= del + p.queue.push(m));
                    }
                },
                Event::Receive => {
                    if p.delivers() {
                        assert(all_after =~= del.push(p.queue[0]) + p.queue.remove(0));
                    }
                },
                _ => {},
            }
        }
        let del_after = delivered(s, trace);
        assert(del_after =~= del + p.delivered_by(e));
        assert(del_after =~= all_after.subrange(0, del_after.len() as int));
    }
}

/// Fan-in without loss: however the sends of any number of handles and the
/// receives interleave, once a channel that started empty is empty again
/// the consumer has got every message that was taken, each exactly once.
pub proof fn lemma_no_loss_no_duplicate<M>(s: Model<M>, trace: Seq<Event<M>>)
    requires
        s.inv(),
        s.queue.len() == 0,
        run(s, trace).consumer_open,
        run(s, trace).queue.len() == 0,
    ensures
        delivered(s, trace) == accepted(s, trace),
        delivered(s, trace).to_multiset() == accepted(s, trace).to_multiset(),
{
    lemma_delivery_in_order(s, trace);
    assert(s.queue + accepted(s, trace) =~= accepted(s, trace));
    assert(delivered(s, trace) + run(s, trace).queue =~= delivered(s, trace));
}

/// First in, first out for each producer: pick out the messages of one
/// handle by any test on a message. The consumer gets those in the order in
/// which that handle's sends were taken, and all of them once the channel
/// is empty again.
pub proof fn lemma_fifo_per_producer<M>(
    s: Model<M>,
    trace: Seq<Event<M>>,
    from_handle: spec_fn(M) -> bool,
)
    requires
        s.inv(),
        s.queue.len() == 0,
    ensures
        delivered(s, trace).filter(from_handle).is_prefix_of(
            accepted(s, trace).filter(from_handle),
        ),
        run(s, trace).consumer_open && run(s, trace).queue.len() == 0 ==> delivered(
            s,
            trace,
        ).filter(from_handle) == accepted(s, trace).filter(from_handle),
{
    lemma_delivery_in_order(s, trace);
    let acc = accepted(s, trace);
    let del = delivered(s, trace);
    assert(s.queue + acc =~= acc);
    let rest = acc.skip(del.len() as int);
    assert(acc =~= del + rest);
    Seq::filter_distributes_over_add(del, rest, from_handle);
    let fd = del.filter(from_handle);
    let fr = rest.filter(from_handle);
    assert(fd =~= (fd + fr).subrange(0, fd.len() as int));
    if run(s, trace).consumer_open && run(s, trace).queue.len() == 0 {
        assert(del + run(s, trace).queue =~= del);
    }
}

/// Sends that fit are all taken, in order, and change nothing else.
pub proof fn lemma_send_all_fits<M>(s: Model<M>, msgs: Seq<M>)
    requires
        s.producers > 0,
        s.consumer_open,
        s.queue.len() + msgs.len() <= s.capacity,
    ensures
        send_all(s, msgs) == (Model { queue: s.queue + msgs, ..s }),
    decreases msgs.len(),
{
    if msgs.len() == 0 {
        assert(s.queue + msgs =~= s.queue);
    } else {
        lemma_send_all_fits(s, msgs.drop_last());
        assert((s.queue + msgs.drop_last()).push(msgs.last()) =~= s.queue + msgs);
    }
}

/// Backpressure: a new channel takes as many sends as its capacity. The
/// next one is handed back as `Full` and changes nothing, however often it
/// is tried; after one receive the same send is taken.
pub proof fn lemma_backpressure<M>(capacity: nat, msgs: Seq<M>, extra: M)
    requires
        capacity > 0,
        msgs.len() == capacity,
    ensures
        ({
            let full = send_all(Model::<M>::fresh(capacity), msgs);
            &&& full.inv()
            &&& full.queue == msgs
            &&& full.send_reply(extra) == Err::<(), SendError<M>>(SendError::Full(extra))
            &&& full.after_send(extra) == full
            &&& full.receive_reply() == Received::Message(msgs[0])
            &&& full.after_receive().send_reply(extra) == Ok::<(), SendError<M>>(())
            &&& full.after_receive().after_send(extra).queue == msgs.remove(0).push(extra)
        }),
{
    let s = Model::<M>::fresh(capacity);
    lemma_send_all_fits(s, msgs);
    assert(s.queue + msgs =~= msgs);
}

/// Closure is final: once no producer handle is left and the buffer is
/// empty, nothing that happens afterwards changes that. No send is taken,
/// nothing is delivered, and every receive answers `Closed`.
pub proof fn lemma_closed_is_terminal<M>(s: Model<M>, trace: Seq<Event<M>>)
    requires
        s.drained_and_closed(),
    ensures
        run(s, trace).drained_and_closed(),
        run(s, trace).receive_reply() == Received::<M>::Closed,
        run(s, trace).after_receive() == run(s, trace),
        accepted(s, trace).len() == 0,
        delivered(s, trace).len() == 0,
    decreases trace.len(),
{
    if trace.len() > 0 {
        lemma_closed_is_terminal(s, trace.drop_last());
    }
}

} // verus!
