//! The cross-endpoint guarantees of the channel protocol, stated over a
//! pure model of one channel's history. The endpoints' own contracts pin
//! each side's half of the story (what the sender pushed, what the receiver
//! delivered and acknowledged); the model below states what the two halves
//! add up to across the FIFO transport between them, and the lemmas prove
//! those statements of every run the model admits.

use crate::channel::ChannelElement;
use crate::receiver::lemma_receiver_fifo;
use crate::receiver::Receiver;
use crate::sender::Sender;
use crate::time::Time;
use vstd::prelude::*;

verus! {

/// The history of one bounded channel: everything sent so far, how much of
/// it was consumed, the shared in-flight counter, and whether the sender has
/// closed.
pub struct ChannelModel<T> {
    pub sent: Seq<ChannelElement<T>>,
    pub consumed: nat,
    pub counter: int,
    pub capacity: nat,
    pub sender_closed: bool,
}

/// A fresh channel: nothing sent, nothing consumed, counter at zero.
pub open spec fn model_init<T>(capacity: nat) -> ChannelModel<T> {
    ChannelModel { sent: Seq::empty(), consumed: 0, counter: 0, capacity, sender_closed: false }
}

/// The model's invariant: consumption never overtakes sending, and the
/// shared counter is exactly the number of elements in flight, which never
/// exceeds the capacity.
pub open spec fn model_inv<T>(m: ChannelModel<T>) -> bool {
    &&& m.consumed <= m.sent.len()
    &&& m.counter == m.sent.len() - m.consumed
    &&& m.counter <= m.capacity
}

/// A send is admitted while the sender is open and observes room; it
/// appends the element and raises the counter.
pub open spec fn send_admitted<T>(m: ChannelModel<T>) -> bool {
    !m.sender_closed && m.counter < m.capacity
}

pub open spec fn model_send<T>(m: ChannelModel<T>, e: ChannelElement<T>) -> ChannelModel<T> {
    ChannelModel { sent: m.sent.push(e), counter: m.counter + 1, ..m }
}

/// A consume is admitted while an element is in flight; it hands over the
/// oldest unconsumed element and lowers the counter.
pub open spec fn recv_admitted<T>(m: ChannelModel<T>) -> bool {
    m.consumed < m.sent.len()
}

pub open spec fn model_recv<T>(m: ChannelModel<T>) -> ChannelModel<T> {
    ChannelModel { consumed: m.consumed + 1, counter: m.counter - 1, ..m }
}

/// What a consume hands over: the oldest unconsumed element.
pub open spec fn model_recv_yield<T>(m: ChannelModel<T>) -> ChannelElement<T> {
    m.sent[m.consumed as int]
}

pub open spec fn model_close<T>(m: ChannelModel<T>) -> ChannelModel<T> {
    ChannelModel { sender_closed: true, ..m }
}

/// The sequence the receiver has observed so far.
pub open spec fn model_delivered<T>(m: ChannelModel<T>) -> Seq<ChannelElement<T>> {
    m.sent.take(m.consumed as int)
}

/// A fresh channel satisfies the invariant.
pub proof fn lemma_init_inv<T>(capacity: nat)
    ensures
        model_inv(model_init::<T>(capacity)),
{
}

/// Counter coupling and capacity, across a send: an admitted send keeps the
/// counter equal to sent-minus-consumed and within the capacity.
pub proof fn lemma_send_preserves_inv<T>(m: ChannelModel<T>, e: ChannelElement<T>)
    requires
        model_inv(m),
        send_admitted(m),
    ensures
        model_inv(model_send(m, e)),
        model_send(m, e).counter <= m.capacity,
        model_delivered(model_send(m, e)) == model_delivered(m),
{
    assert(model_delivered(model_send(m, e)) =~= model_delivered(m));
}

/// Counter coupling across a consume, and FIFO order: the element handed
/// over is exactly the next one in send order.
pub proof fn lemma_recv_preserves_inv<T>(m: ChannelModel<T>)
    requires
        model_inv(m),
        recv_admitted(m),
    ensures
        model_inv(model_recv(m)),
        0 <= model_recv(m).counter,
        model_delivered(model_recv(m)) == model_delivered(m).push(model_recv_yield(m)),
{
    assert(model_delivered(model_recv(m)) =~= model_delivered(m).push(model_recv_yield(m)));
}

/// Closing changes no count and loses no element.
pub proof fn lemma_close_preserves_inv<T>(m: ChannelModel<T>)
    requires
        model_inv(m),
    ensures
        model_inv(model_close(m)),
        model_delivered(model_close(m)) == model_delivered(m),
{
}

/// FIFO: at every point, what the receiver has observed is exactly the
/// prefix of what the sender enqueued, element for element and in order.
pub proof fn lemma_fifo<T>(m: ChannelModel<T>)
    requires
        model_inv(m),
    ensures
        model_delivered(m).is_prefix_of(m.sent),
        model_delivered(m).len() == m.consumed,
        forall|i: int| 0 <= i < m.consumed ==> model_delivered(m)[i] == m.sent[i],
{
}

/// Counter coupling, as read after any quiescent interval: the counter is
/// the number of enqueued elements minus the number of consumed ones.
pub proof fn lemma_counter_coupling<T>(m: ChannelModel<T>)
    requires
        model_inv(m),
    ensures
        m.counter == m.sent.len() - m.consumed,
        0 <= m.counter <= m.capacity,
{
}

/// Close-convergence: once the sender has closed, no send is admitted any
/// more, the backlog is exactly `sent - consumed` consumes, and a receiver
/// that has drained it observes the end of the stream thereafter.
pub proof fn lemma_close_convergence<T>(m: ChannelModel<T>)
    requires
        model_inv(m),
        m.sender_closed,
    ensures
        !send_admitted(m),
        recv_admitted(m) ==> model_recv(m).sent.len() - model_recv(m).consumed < m.sent.len()
            - m.consumed,
        !recv_admitted(m) ==> m.consumed == m.sent.len(),
{
}

/// FIFO across the two executable endpoints. What the data stream has
/// handed the receiver being a prefix of what the sender pushed is
/// crossbeam's FIFO guarantee — trusted, since the stream's contents are
/// shared between threads and no contract tracks them. Under exactly that
/// hypothesis, the elements the receiver delivers are the sender's
/// sequence, element for element and in order.
pub proof fn lemma_endpoint_fifo<T: Copy>(s: Sender<T>, r: Receiver<T>)
    requires
        r.wf(),
        r.taken_log().is_prefix_of(s.sent_log()),
    ensures
        r.delivered_log().is_prefix_of(s.sent_log()),
        forall|i: int|
            0 <= i < r.delivered_log().len() ==> r.delivered_log()[i] == s.sent_log()[i],
{
    lemma_receiver_fifo(r);
    assert forall|i: int| 0 <= i < r.delivered_log().len() implies r.delivered_log()[i]
        == s.sent_log()[i] by {
        assert(r.delivered_log()[i] == r.taken_log()[i]);
        assert(r.taken_log()[i] == s.sent_log().subrange(0, r.taken_log().len() as int)[i]);
    }
    assert(r.delivered_log() =~= s.sent_log().subrange(0, r.delivered_log().len() as int));
}

/// Monotone stamps: if the sender's TLB was monotone across its sends, each
/// element was stamped no earlier than the TLB at its send, and the TLB at
/// each send had already passed the previous element's stamp, then stamps
/// arrive at the receiver in non-decreasing order. (Without the last
/// hypothesis the claim fails: a sender at TLB 5 may stamp one element 100
/// and the next 6.)
pub proof fn lemma_monotone_stamps(stamps: Seq<Time>, tlbs: Seq<Time>)
    requires
        stamps.len() == tlbs.len(),
        forall|i: int, j: int|
            0 <= i <= j < tlbs.len() ==> #[trigger] tlbs[i].cycles <= #[trigger] tlbs[j].cycles,
        forall|i: int| 0 <= i < stamps.len() ==> tlbs[i].cycles <= #[trigger] stamps[i].cycles,
        forall|i: int|
            0 <= i < stamps.len() - 1 ==> #[trigger] stamps[i].cycles <= tlbs[i + 1].cycles,
    ensures
        forall|i: int, j: int|
            0 <= i <= j < stamps.len() ==> #[trigger] stamps[i].cycles
                <= #[trigger] stamps[j].cycles,
{
    assert forall|i: int, j: int| 0 <= i <= j < stamps.len() implies #[trigger] stamps[i].cycles
        <= #[trigger] stamps[j].cycles by {
        if i < j {
            assert(stamps[i].cycles <= tlbs[i + 1].cycles);
            assert(tlbs[i + 1].cycles <= tlbs[j].cycles);
            assert(tlbs[j].cycles <= stamps[j].cycles);
        }
    }
}

} // verus!
