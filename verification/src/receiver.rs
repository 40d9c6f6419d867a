//! The receiving endpoint: a head cache over the data stream, the
//! peek/recv state machine, and the acknowledgement of every consumed
//! element on the response stream with the timestamp
//! `max(receiver TLB, element time)` — the sender's only way to learn that
//! capacity came free.

use crate::channel::ChannelElement;
use crate::channel::ChannelFlavor;
use crate::channel::ChannelID;
use crate::channel::DequeueError;
use crate::channel::LogEntry;
use crate::channel::Recv;
use crate::channel::ReceiverEvent;
use crate::channel::ViewStruct;
use crate::clock::TimeView;
use crate::logging::log_push;
use crate::time::Time;
use crate::transport::stream_pull;
use crate::transport::stream_push;
use crate::transport::stream_try_pull;
use crate::transport::StreamReceiver;
use crate::transport::StreamSender;
use crate::transport::TryRead;
use vstd::prelude::*;

verus! {

/// What the receiver reads from: an open data stream, or an endpoint whose
/// owner has closed it.
#[verifier::reject_recursive_types(T)]
pub(crate) enum ReceiverState<T> {
    Open(StreamReceiver<ChannelElement<T>>),
    Closed,
}

#[verifier::reject_recursive_types(T)]
pub struct Receiver<T> {
    underlying: ReceiverState<T>,
    resp: StreamSender<Time>,
    view_struct: ViewStruct,
    head: Recv<T>,
    my_view: Option<TimeView>,
    tlb_cache: Time,
    log: Option<StreamSender<LogEntry>>,
    taken: Ghost<Seq<ChannelElement<T>>>,
    delivered: Ghost<Seq<ChannelElement<T>>>,
    acks: Ghost<Seq<Time>>,
    rtlbs: Ghost<Seq<Time>>,
    events: Ghost<Seq<ReceiverEvent>>,
}

impl<T: Copy> Receiver<T> {
    pub closed spec fn is_open(self) -> bool {
        self.underlying is Open
    }

    pub closed spec fn is_closed(self) -> bool {
        self.underlying is Closed
    }

    /// The receiving actor's clock view has been recorded.
    pub closed spec fn is_attached(self) -> bool {
        self.my_view is Some
    }

    /// The receiver's monotone cache of its own TLB.
    pub closed spec fn tlb(self) -> Time {
        self.tlb_cache
    }

    /// The current head cache.
    pub closed spec fn head_cache(self) -> Recv<T> {
        self.head
    }

    pub closed spec fn id(self) -> ChannelID {
        self.view_struct.id()
    }

    /// The flavor hint this channel was created with.
    pub closed spec fn flav(self) -> ChannelFlavor {
        self.view_struct.flavor()
    }

    /// Every element pulled off the data stream, in stream order.
    pub closed spec fn taken_log(self) -> Seq<ChannelElement<T>> {
        self.taken@
    }

    /// Every element handed to the caller, in consumption order.
    pub closed spec fn delivered_log(self) -> Seq<ChannelElement<T>> {
        self.delivered@
    }

    /// Every acknowledgement timestamp pushed at the sender, in push order.
    pub closed spec fn ack_log(self) -> Seq<Time> {
        self.acks@
    }

    /// The receiver TLB observed at each consumption, in the same order.
    pub closed spec fn rtlb_log(self) -> Seq<Time> {
        self.rtlbs@
    }

    /// Every event this endpoint has emitted, in emission order.
    pub closed spec fn event_log(self) -> Seq<ReceiverEvent> {
        self.events@
    }

    /// The parts of the endpoint no operation but `attach_receiver` and
    /// `close` may change.
    pub closed spec fn steady(self, pre: Receiver<T>) -> bool {
        &&& self.underlying == pre.underlying
        &&& self.resp == pre.resp
        &&& self.view_struct == pre.view_struct
        &&& self.my_view == pre.my_view
        &&& self.log == pre.log
    }

    /// The receiver delivers exactly what it pulled off the stream, in
    /// stream order: the delivered sequence is the taken sequence up to the
    /// cached head, and every acknowledgement is the maximum of the observed
    /// receiver TLB and the consumed element's stamp.
    pub closed spec fn wf(self) -> bool {
        &&& (self.head matches Recv::Something(e) ==> self.taken@ == self.delivered@.push(e))
        &&& (!(self.head is Something) ==> self.taken@ == self.delivered@)
        &&& self.acks@.len() == self.delivered@.len()
        &&& self.rtlbs@.len() == self.delivered@.len()
        &&& (forall|i: int|
            0 <= i < self.acks@.len() ==> self.acks@[i] == Time::spec_max(
                self.rtlbs@[i],
                self.delivered@[i].time,
            ))
    }

    pub(crate) fn assemble(
        underlying: ReceiverState<T>,
        resp: StreamSender<Time>,
        view_struct: ViewStruct,
    ) -> (r: Receiver<T>)
        ensures
            r.wf(),
            r.is_open() == (underlying is Open),
            r.is_closed() == (underlying is Closed),
            !r.is_attached(),
            r.head_cache() is Unknown,
            r.id() == view_struct.id(),
            r.flav() == view_struct.flavor(),
            r.tlb() == (Time { cycles: 0 }),
            r.taken_log() == Seq::<ChannelElement<T>>::empty(),
            r.delivered_log() == Seq::<ChannelElement<T>>::empty(),
            r.ack_log() == Seq::<Time>::empty(),
            r.event_log() == Seq::<ReceiverEvent>::empty(),
    {
        Receiver {
            underlying,
            resp,
            view_struct,
            head: Recv::Unknown,
            my_view: None,
            tlb_cache: Time::new(0),
            log: None,
            taken: Ghost(Seq::empty()),
            delivered: Ghost(Seq::empty()),
            acks: Ghost(Seq::empty()),
            rtlbs: Ghost(Seq::empty()),
            events: Ghost(Seq::empty()),
        }
    }

    /// Records the receiving actor's clock view; must precede the first
    /// peek or recv. Expected to be called once per channel.
    pub fn attach_receiver(&mut self, view: &TimeView)
        ensures
            final(self).is_attached(),
            final(self).wf() == old(self).wf(),
            final(self).is_open() == old(self).is_open(),
            final(self).head_cache() == old(self).head_cache(),
            final(self).tlb() == old(self).tlb(),
            final(self).taken_log() == old(self).taken_log(),
            final(self).delivered_log() == old(self).delivered_log(),
            final(self).ack_log() == old(self).ack_log(),
            final(self).event_log() == old(self).event_log(),
            final(self).id() == old(self).id(),
    {
        self.view_struct.attach_receiver(view);
        self.my_view = Some(view.share());
    }

    /// Attaches a log stream for this endpoint's events.
    pub fn attach_logger(&mut self, log: StreamSender<LogEntry>)
        ensures
            final(self).is_attached() == old(self).is_attached(),
            final(self).wf() == old(self).wf(),
            final(self).is_open() == old(self).is_open(),
            final(self).head_cache() == old(self).head_cache(),
            final(self).tlb() == old(self).tlb(),
            final(self).taken_log() == old(self).taken_log(),
            final(self).delivered_log() == old(self).delivered_log(),
            final(self).ack_log() == old(self).ack_log(),
            final(self).event_log() == old(self).event_log(),
            final(self).id() == old(self).id(),
    {
        self.log = Some(log);
    }

    /// The freshest lower bound this endpoint holds on its actor's clock;
    /// reading it never moves it backwards.
    pub fn receiver_tlb(&mut self) -> (r: Time)
        requires
            old(self).is_attached(),
        ensures
            r == final(self).tlb(),
            old(self).tlb().cycles <= r.cycles,
            final(self).steady(*old(self)),
            final(self).is_open() == old(self).is_open(),
            final(self).is_attached() == old(self).is_attached(),
            final(self).wf() == old(self).wf(),
            final(self).head_cache() == old(self).head_cache(),
            final(self).taken_log() == old(self).taken_log(),
            final(self).delivered_log() == old(self).delivered_log(),
            final(self).ack_log() == old(self).ack_log(),
            final(self).rtlb_log() == old(self).rtlb_log(),
            final(self).event_log() == old(self).event_log(),
    {
        let seen = match &self.my_view {
            Some(v) => v.tick_lower_bound(),
            None => {
                proof {
                    assert(false);
                }
                Time::new(0)
            },
        };
        self.tlb_cache = self.tlb_cache.max(seen);
        self.tlb_cache
    }

    /// Waits until the sending actor's clock reaches `t` and returns the
    /// value it reached; an unattached sender poses no constraint and the
    /// wait returns `t` itself.
    fn wait_sender(&self, t: Time) -> (r: Time)
        ensures
            t.cycles <= r.cycles,
    {
        match self.view_struct.sender_view() {
            Some(v) => v.wait_until(t),
            None => t,
        }
    }

    /// Rewrites the head from one non-blocking stream read: an element
    /// becomes `Something`, a disconnected stream becomes `Closed`, an empty
    /// stream becomes `Nothing(nothing_time)` — or `Closed` when
    /// `nothing_time` is infinite, since nothing can arrive after the end of
    /// time. True when the head reached a terminal state.
    fn try_update_head(&mut self, nothing_time: Time) -> (r: bool)
        requires
            old(self).is_open(),
            old(self).wf(),
            !(old(self).head_cache() is Something),
        ensures
            final(self).wf(),
            final(self).steady(*old(self)),
            final(self).is_open() == old(self).is_open(),
            final(self).is_attached() == old(self).is_attached(),
            final(self).tlb() == old(self).tlb(),
            final(self).delivered_log() == old(self).delivered_log(),
            final(self).ack_log() == old(self).ack_log(),
            final(self).rtlb_log() == old(self).rtlb_log(),
            final(self).event_log() == old(self).event_log(),
            r == (final(self).head_cache() is Something || final(self).head_cache() is Closed),
            !(final(self).head_cache() is Unknown),
            (final(self).head_cache() matches Recv::Something(e) ==> final(self).taken_log()
                == old(self).taken_log().push(e)),
            !(final(self).head_cache() is Something) ==> final(self).taken_log() == old(self).taken_log(),
            (final(self).head_cache() matches Recv::Nothing(t) ==> t == nothing_time),
    {
        let outcome = match &self.underlying {
            ReceiverState::Open(rx) => stream_try_pull(rx),
            ReceiverState::Closed => {
                proof {
                    assert(false);
                }
                TryRead::Disconnected
            },
        };
        match outcome {
            TryRead::Got(e) => {
                self.head = Recv::Something(e);
                proof {
                    self.taken@ = self.taken@.push(e);
                }
                true
            },
            TryRead::Disconnected => {
                self.head = Recv::Closed;
                true
            },
            TryRead::Empty => {
                if nothing_time.is_infinite() {
                    self.head = Recv::Closed;
                    true
                } else {
                    self.head = Recv::Nothing(nothing_time);
                    false
                }
            },
        }
    }

    /// Clock-aware, non-destructive inspection of the channel's head. Never
    /// returns `Unknown`: the result is an element, `Closed`, or a promise
    /// `Nothing(t)` that nothing will arrive stamped before `t`. A cached
    /// `Nothing` is returned as long as its promise still covers the
    /// receiver's TLB; otherwise one non-blocking read is tried, and failing
    /// that the peek waits for the sender's clock to reach the receiver's
    /// before reading once more.
    pub fn peek(&mut self) -> (r: Recv<T>)
        requires
            old(self).is_open(),
            old(self).is_attached(),
            old(self).wf(),
        ensures
            final(self).wf(),
            final(self).steady(*old(self)),
            final(self).is_open() == old(self).is_open(),
            final(self).is_attached() == old(self).is_attached(),
            final(self).delivered_log() == old(self).delivered_log(),
            final(self).ack_log() == old(self).ack_log(),
            final(self).rtlb_log() == old(self).rtlb_log(),
            r == final(self).head_cache(),
            !(r is Unknown),
            old(self).head_cache() is Something ==> r == old(self).head_cache(),
            old(self).head_cache() is Closed ==> r is Closed,
            old(self).head_cache() matches Recv::Nothing(t) && t.cycles >= final(self).tlb().cycles ==> r == old(self).head_cache(),
            r matches Recv::Nothing(t) ==> t.cycles >= final(self).tlb().cycles,
            old(self).tlb().cycles <= final(self).tlb().cycles,
            final(self).event_log().len() == old(self).event_log().len() + 1,
            final(self).event_log().last() == ReceiverEvent::Peek(old(self).id()),
    {
        let entry = ReceiverEvent::Peek(self.view_struct.query_id());
        log_push(&self.log, LogEntry::FromReceiver(entry));
        proof {
            self.events@ = self.events@.push(entry);
        }
        let recv_time = self.receiver_tlb();
        let head_now = self.head;
        match head_now {
            Recv::Something(_) => {
                return head_now;
            },
            Recv::Closed => {
                return Recv::Closed;
            },
            Recv::Nothing(time) => {
                if time.cycles >= recv_time.cycles {
                    // The promise that nothing arrives before `time` still
                    // covers the receiver's clock.
                    return Recv::Nothing(time);
                }
            },
            Recv::Unknown => {},
        }
        // First attempt; an empty stream is acceptable here.
        if self.try_update_head(Time::new(0)) {
            return self.head;
        }
        // Nothing queued yet: wait until the sender's clock reaches ours, so
        // its silence is a promise rather than a race.
        let sig_time = self.wait_sender(recv_time);
        let _ = self.try_update_head(sig_time);
        self.head
    }

    /// Consumes the head element, if there is one: acknowledges it at the
    /// sender with `max(receiver TLB, element time)`, lowers the shared
    /// in-flight counter, and invalidates the head cache. Anything other
    /// than an element leaves the channel unchanged.
    pub fn recv(&mut self) -> (r: Recv<T>)
        requires
            old(self).is_open(),
            old(self).is_attached(),
            old(self).wf(),
        ensures
            final(self).wf(),
            final(self).steady(*old(self)),
            final(self).is_open() == old(self).is_open(),
            final(self).is_attached() == old(self).is_attached(),
            !(r is Unknown),
            (r matches Recv::Something(e) ==> final(self).delivered_log() == old(self).delivered_log().push(e) && final(self).ack_log() == old(self).ack_log().push(
                Time::spec_max(final(self).tlb(), e.time),
            ) && final(self).rtlb_log() == old(self).rtlb_log().push(final(self).tlb()) && final(self).head_cache() is Unknown),
            !(r is Something) ==> final(self).delivered_log() == old(self).delivered_log() && final(self).ack_log() == old(self).ack_log() && r == final(self).head_cache(),
            old(self).head_cache() is Something ==> r == old(self).head_cache(),
            old(self).tlb().cycles <= final(self).tlb().cycles,
            final(self).event_log().len() == old(self).event_log().len() + 2,
            final(self).event_log().last() == ReceiverEvent::Recv(old(self).id()),
    {
        let res = self.peek();
        let entry = ReceiverEvent::Recv(self.view_struct.query_id());
        log_push(&self.log, LogEntry::FromReceiver(entry));
        proof {
            self.events@ = self.events@.push(entry);
        }
        match res {
            Recv::Something(e) => {
                let ct = self.receiver_tlb();
                // Lower the live counter first, then acknowledge with the
                // drain time; a sender that is already gone simply never
                // reads the acknowledgement.
                let _prev = self.view_struct.decr_delta();
                let ack = ct.max(e.time);
                let _ = stream_push(&self.resp, ack);
                self.head = Recv::Unknown;
                proof {
                    self.delivered@ = self.delivered@.push(e);
                    self.acks@ = self.acks@.push(ack);
                    self.rtlbs@ = self.rtlbs@.push(ct);
                }
            },
            _ => {},
        }
        res
    }

    /// A blocking peek that consults no clock: returns the cached head if
    /// it is terminal, and otherwise blocks on the data stream itself. Used
    /// by callers that already hold a broader synchronization.
    pub fn peek_next_sync(&mut self) -> (r: Recv<T>)
        requires
            old(self).is_open(),
            old(self).wf(),
        ensures
            final(self).wf(),
            final(self).steady(*old(self)),
            final(self).is_open() == old(self).is_open(),
            final(self).is_attached() == old(self).is_attached(),
            final(self).delivered_log() == old(self).delivered_log(),
            final(self).ack_log() == old(self).ack_log(),
            final(self).rtlb_log() == old(self).rtlb_log(),
            final(self).event_log() == old(self).event_log(),
            final(self).tlb() == old(self).tlb(),
            r == final(self).head_cache(),
            r is Something || r is Closed,
            old(self).head_cache() is Something ==> r == old(self).head_cache(),
            old(self).head_cache() is Closed ==> r is Closed,
    {
        let head_now = self.head;
        match head_now {
            Recv::Something(_) => {
                return head_now;
            },
            Recv::Closed => {
                return Recv::Closed;
            },
            _ => {},
        }
        let got = match &self.underlying {
            ReceiverState::Open(rx) => stream_pull(rx),
            ReceiverState::Closed => {
                proof {
                    assert(false);
                }
                None
            },
        };
        match got {
            Some(e) => {
                self.head = Recv::Something(e);
                proof {
                    self.taken@ = self.taken@.push(e);
                }
            },
            None => {
                self.head = Recv::Closed;
            },
        }
        self.head
    }

    /// A blocking peek for the adapter surface: an element, or
    /// `DequeueError` once the channel is closed and drained.
    pub fn peek_next(&mut self) -> (r: Result<ChannelElement<T>, DequeueError>)
        requires
            old(self).is_open(),
            old(self).wf(),
        ensures
            final(self).wf(),
            final(self).steady(*old(self)),
            final(self).is_open() == old(self).is_open(),
            final(self).is_attached() == old(self).is_attached(),
            final(self).delivered_log() == old(self).delivered_log(),
            final(self).ack_log() == old(self).ack_log(),
            (r matches Ok(e) ==> final(self).head_cache() == Recv::Something(e)),
            r is Err ==> final(self).head_cache() is Closed,
            old(self).head_cache() matches Recv::Something(e) ==> r == Ok::<
                ChannelElement<T>,
                DequeueError,
            >(e),
            old(self).head_cache() is Closed ==> r is Err,
    {
        match self.peek_next_sync() {
            Recv::Something(e) => Ok(e),
            Recv::Closed => Err(DequeueError {}),
            _ => {
                proof {
                    assert(false);
                }
                Err(DequeueError {})
            },
        }
    }

    /// A blocking consume for the adapter surface: waits for an element,
    /// consumes and acknowledges it; `DequeueError` once the channel is
    /// closed and drained.
    pub fn dequeue(&mut self) -> (r: Result<ChannelElement<T>, DequeueError>)
        requires
            old(self).is_open(),
            old(self).is_attached(),
            old(self).wf(),
        ensures
            final(self).wf(),
            final(self).steady(*old(self)),
            final(self).is_open() == old(self).is_open(),
            final(self).is_attached() == old(self).is_attached(),
            (r matches Ok(e) ==> final(self).delivered_log() == old(self).delivered_log().push(e)
                && final(self).ack_log() == old(self).ack_log().push(
                Time::spec_max(final(self).tlb(), e.time),
            ) && final(self).head_cache() is Unknown),
            r is Err ==> final(self).delivered_log() == old(self).delivered_log() && final(self).ack_log() == old(self).ack_log() && final(self).head_cache() is Closed,
            old(self).head_cache() matches Recv::Something(e) ==> r == Ok::<
                ChannelElement<T>,
                DequeueError,
            >(e),
            old(self).head_cache() is Closed ==> r is Err,
            old(self).tlb().cycles <= final(self).tlb().cycles,
    {
        let got = self.peek_next_sync();
        match got {
            Recv::Something(e) => {
                let ct = self.receiver_tlb();
                let _prev = self.view_struct.decr_delta();
                let ack = ct.max(e.time);
                let _ = stream_push(&self.resp, ack);
                self.head = Recv::Unknown;
                proof {
                    self.delivered@ = self.delivered@.push(e);
                    self.acks@ = self.acks@.push(ack);
                    self.rtlbs@ = self.rtlbs@.push(ct);
                }
                Ok(e)
            },
            _ => Err(DequeueError {}),
        }
    }

    /// Drops the underlying data stream handle; a closed receiver refuses
    /// every further read by contract.
    pub fn close(&mut self)
        ensures
            final(self).is_closed(),
            final(self).head_cache() == old(self).head_cache(),
            final(self).delivered_log() == old(self).delivered_log(),
            final(self).taken_log() == old(self).taken_log(),
            final(self).ack_log() == old(self).ack_log(),
            final(self).event_log() == old(self).event_log(),
            final(self).is_attached() == old(self).is_attached(),
            final(self).id() == old(self).id(),
    {
        self.underlying = ReceiverState::Closed;
    }

    /// What an endpoint does when its owner is done with it.
    pub fn cleanup(&mut self)
        ensures
            final(self).is_closed(),
            final(self).delivered_log() == old(self).delivered_log(),
            final(self).ack_log() == old(self).ack_log(),
    {
        self.close();
    }

    /// This channel's identity.
    pub fn channel_id(&self) -> (r: ChannelID)
        ensures
            r == self.id(),
    {
        self.view_struct.query_id()
    }

    /// The flavor hint this channel was created with.
    pub fn query_flavor(&self) -> (r: ChannelFlavor)
        ensures
            r == self.flav(),
    {
        self.view_struct.query_flavor()
    }

    /// The shared in-flight counter, at some instant during the call.
    pub fn in_flight(&self) -> usize {
        self.view_struct.current_delta()
    }
}

/// The receiver's half of the FIFO guarantee: what it has delivered is
/// exactly the prefix of what it pulled off the data stream, element for
/// element and in order; the stream itself delivers in push order.
pub proof fn lemma_receiver_fifo<T: Copy>(r: Receiver<T>)
    requires
        r.wf(),
    ensures
        r.delivered_log().is_prefix_of(r.taken_log()),
        forall|i: int|
            0 <= i < r.delivered_log().len() ==> r.delivered_log()[i] == r.taken_log()[i],
{
    assert(r.taken_log().take(r.delivered_log().len() as int) =~= r.delivered_log());
}

/// Ack causality: the receiver has pushed exactly one acknowledgement per
/// delivered element, in consumption order, and each one reads
/// `max(receiver TLB at the consume, element time)`.
pub proof fn lemma_ack_causality<T: Copy>(r: Receiver<T>)
    requires
        r.wf(),
    ensures
        r.ack_log().len() == r.delivered_log().len(),
        forall|i: int|
            0 <= i < r.ack_log().len() ==> r.ack_log()[i] == Time::spec_max(
                r.rtlb_log()[i],
                r.delivered_log()[i].time,
            ),
{
}

} // verus!
