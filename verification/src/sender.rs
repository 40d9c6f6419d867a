//! The sending endpoint: capacity accounting over a local in-flight count,
//! draining of the response stream of drain timestamps, and the
//! `SendOptions` oracle handed back when a send is refused.
//!
//! The local count `send_receive_delta` is the sender's private upper bound
//! on how many elements it might still have in flight; the shared atomic in
//! the `ViewStruct` is the live value the receiver lowers. The sender
//! reconciles the two by draining the response stream, one acknowledgement
//! timestamp per consumed element.

use crate::channel::ChannelElement;
use crate::channel::ChannelFlavor;
use crate::channel::ChannelID;
use crate::channel::EnqueueError;
use crate::channel::LogEntry;
use crate::channel::SendEvent;
use crate::channel::SendOptions;
use crate::channel::ViewStruct;
use crate::clock::LocalClock;
use crate::clock::TimeView;
use crate::time::Time;
use crate::logging::log_push;
use crate::transport::stream_pull;
use crate::transport::StreamReceiver;
use crate::transport::StreamSender;
use crate::transport::stream_push;
use crate::transport::stream_try_pull;
use crate::transport::Pushed;
use crate::transport::TryRead;
use vstd::prelude::*;

verus! {

/// What the sender writes into: an open data stream, a closed endpoint, or
/// the void, which discards everything.
#[verifier::reject_recursive_types(T)]
pub(crate) enum SenderState<T> {
    Open(StreamSender<ChannelElement<T>>),
    Closed,
    Void,
}

#[verifier::reject_recursive_types(T)]
pub struct Sender<T> {
    underlying: SenderState<T>,
    resp: StreamReceiver<Time>,
    send_receive_delta: usize,
    capacity: usize,
    view_struct: ViewStruct,
    next_available: SendOptions,
    my_view: Option<TimeView>,
    tlb_cache: Time,
    log: Option<StreamSender<LogEntry>>,
    sent: Ghost<Seq<ChannelElement<T>>>,
    events: Ghost<Seq<SendEvent>>,
}

impl<T: Copy> Sender<T> {
    pub closed spec fn is_void(self) -> bool {
        self.underlying is Void
    }

    pub closed spec fn is_closed(self) -> bool {
        self.underlying is Closed
    }

    pub closed spec fn is_open(self) -> bool {
        self.underlying is Open
    }

    /// The sending actor's clock view has been recorded.
    pub closed spec fn is_attached(self) -> bool {
        self.my_view is Some
    }

    /// The sender's monotone cache of its own TLB: the largest value it has
    /// observed of the sending actor's clock.
    pub closed spec fn tlb(self) -> Time {
        self.tlb_cache
    }

    /// The local in-flight upper bound.
    pub closed spec fn delta(self) -> usize {
        self.send_receive_delta
    }

    pub closed spec fn cap(self) -> usize {
        self.capacity
    }

    /// The capacity oracle as of the last refusal or drain.
    pub closed spec fn oracle(self) -> SendOptions {
        self.next_available
    }

    pub closed spec fn id(self) -> ChannelID {
        self.view_struct.id()
    }

    /// The flavor hint this channel was created with.
    pub closed spec fn flav(self) -> ChannelFlavor {
        self.view_struct.flavor()
    }

    /// Every element pushed into the data stream, in push order.
    pub closed spec fn sent_log(self) -> Seq<ChannelElement<T>> {
        self.sent@
    }

    /// Every event this endpoint has emitted, in emission order.
    pub closed spec fn event_log(self) -> Seq<SendEvent> {
        self.events@
    }

    /// The parts of the endpoint no operation but `attach_sender` and
    /// `close` may change.
    pub closed spec fn steady(self, pre: Sender<T>) -> bool {
        &&& self.underlying == pre.underlying
        &&& self.resp == pre.resp
        &&& self.capacity == pre.capacity
        &&& self.view_struct == pre.view_struct
        &&& self.my_view == pre.my_view
        &&& self.log == pre.log
    }

    /// Capacity accounting is coherent: the local count never exceeds the
    /// capacity, and a void sender counts nothing.
    pub closed spec fn wf(self) -> bool {
        &&& self.send_receive_delta <= self.capacity
        &&& (self.underlying is Void ==> self.send_receive_delta == 0 && self.capacity
            == usize::MAX)
    }

    pub(crate) fn assemble(
        underlying: SenderState<T>,
        resp: StreamReceiver<Time>,
        capacity: usize,
        view_struct: ViewStruct,
    ) -> (r: Sender<T>)
        requires
            (underlying is Void ==> capacity == usize::MAX),
        ensures
            r.wf(),
            r.delta() == 0,
            r.cap() == capacity,
            r.oracle() == SendOptions::Unknown,
            !r.is_attached(),
            r.is_void() == (underlying is Void),
            r.is_closed() == (underlying is Closed),
            r.is_open() == (underlying is Open),
            r.id() == view_struct.id(),
            r.flav() == view_struct.flavor(),
            r.tlb() == (Time { cycles: 0 }),
            r.sent_log() == Seq::<ChannelElement<T>>::empty(),
            r.event_log() == Seq::<SendEvent>::empty(),
    {
        Sender {
            underlying,
            resp,
            send_receive_delta: 0,
            capacity,
            view_struct,
            next_available: SendOptions::Unknown,
            my_view: None,
            tlb_cache: Time::new(0),
            log: None,
            sent: Ghost(Seq::empty()),
            events: Ghost(Seq::empty()),
        }
    }

    /// Records the sending actor's clock view; must precede the first
    /// non-void send. Expected to be called once per channel.
    pub fn attach_sender(&mut self, view: &TimeView)
        ensures
            final(self).is_attached(),
            final(self).is_void() == old(self).is_void(),
            final(self).is_closed() == old(self).is_closed(),
            final(self).is_open() == old(self).is_open(),
            final(self).wf() == old(self).wf(),
            final(self).delta() == old(self).delta(),
            final(self).cap() == old(self).cap(),
            final(self).oracle() == old(self).oracle(),
            final(self).tlb() == old(self).tlb(),
            final(self).sent_log() == old(self).sent_log(),
            final(self).event_log() == old(self).event_log(),
            final(self).id() == old(self).id(),
    {
        self.view_struct.attach_sender(view);
        self.my_view = Some(view.share());
    }

    /// Attaches a log stream for this endpoint's events.
    pub fn attach_logger(&mut self, log: StreamSender<LogEntry>)
        ensures
            final(self).is_attached() == old(self).is_attached(),
            final(self).is_void() == old(self).is_void(),
            final(self).is_closed() == old(self).is_closed(),
            final(self).is_open() == old(self).is_open(),
            final(self).wf() == old(self).wf(),
            final(self).delta() == old(self).delta(),
            final(self).cap() == old(self).cap(),
            final(self).oracle() == old(self).oracle(),
            final(self).tlb() == old(self).tlb(),
            final(self).sent_log() == old(self).sent_log(),
            final(self).event_log() == old(self).event_log(),
            final(self).id() == old(self).id(),
    {
        self.log = Some(log);
    }

    /// The freshest lower bound this endpoint holds on its actor's clock;
    /// reading it never moves it backwards.
    pub fn sender_tlb(&mut self) -> (r: Time)
        requires
            old(self).is_attached(),
        ensures
            r == final(self).tlb(),
            old(self).tlb().cycles <= r.cycles,
            final(self).steady(*old(self)),
            final(self).is_void() == old(self).is_void(),
            final(self).is_closed() == old(self).is_closed(),
            final(self).is_attached() == old(self).is_attached(),
            final(self).delta() == old(self).delta(),
            final(self).oracle() == old(self).oracle(),
            final(self).sent_log() == old(self).sent_log(),
            final(self).event_log() == old(self).event_log(),
            final(self).wf() == old(self).wf(),
    {
        let seen = match &self.my_view {
            Some(v) => v.tick_lower_bound(),
            None => {
                proof {
                    assert(false);
                }
                Time::new(0)
            },
        };
        self.tlb_cache = self.tlb_cache.max(seen);
        self.tlb_cache
    }

    /// Waits until the receiving actor's clock reaches `t` and returns the
    /// value it reached; an unattached receiver poses no constraint and the
    /// wait returns `t` itself.
    fn wait_receiver(&self, t: Time) -> (r: Time)
        ensures
            t.cycles <= r.cycles,
    {
        match self.view_struct.receiver_view() {
            Some(v) => v.wait_until(t),
            None => t,
        }
    }

    /// Drains the response stream as far as possible without waiting (after
    /// one blocking read when the shared counter shows an acknowledgement
    /// is owed). A drain timestamp at or before the sender's TLB credits a
    /// slot; one in the future becomes `AvailableAt`; a disconnected stream
    /// becomes `Never`.
    fn update_srd(&mut self)
        requires
            old(self).wf(),
            old(self).is_attached(),
        ensures
            final(self).wf(),
            final(self).steady(*old(self)),
            final(self).delta() <= old(self).delta(),
            !(final(self).oracle() is CheckBackAt),
            final(self).oracle() matches SendOptions::AvailableAt(t) ==> final(self).tlb().cycles < t.cycles,
            final(self).sent_log() == old(self).sent_log(),
            final(self).event_log() == old(self).event_log(),
            old(self).tlb().cycles <= final(self).tlb().cycles,
    {
        let ghost pre = *self;
        let send_time = self.sender_tlb();
        self.next_available = SendOptions::Unknown;
        let real_srd = self.view_struct.current_delta();
        // In a correct run the shared counter never exceeds the local upper
        // bound; the difference is how many acknowledgements are owed.
        let srd_diff: usize = if real_srd <= self.send_receive_delta {
            self.send_receive_delta - real_srd
        } else {
            0
        };
        if srd_diff > 0 {
            match stream_pull(&self.resp) {
                Some(t) => {
                    if t.cycles <= send_time.cycles {
                        self.send_receive_delta = self.send_receive_delta - 1;
                    } else {
                        self.next_available = SendOptions::AvailableAt(t);
                        return ;
                    }
                },
                None => {
                    self.next_available = SendOptions::Never;
                    return ;
                },
            }
        }
        loop
            invariant
                self.wf(),
                self.steady(pre),
                self.delta() <= pre.delta(),
                self.next_available == SendOptions::Unknown,
                self.sent_log() == pre.sent_log(),
                self.event_log() == pre.event_log(),
                self.tlb_cache == send_time,
                pre == *old(self),
                old(self).tlb().cycles <= send_time.cycles,
            decreases self.send_receive_delta,
        {
            match stream_try_pull(&self.resp) {
                TryRead::Got(t) => {
                    if t.cycles <= send_time.cycles {
                        if self.send_receive_delta > 0 {
                            self.send_receive_delta = self.send_receive_delta - 1;
                        } else {
                            // A stale acknowledgement with nothing left to
                            // credit; leave the count at zero.
                            return ;
                        }
                    } else {
                        self.next_available = SendOptions::AvailableAt(t);
                        return ;
                    }
                },
                TryRead::Empty => {
                    return ;
                },
                TryRead::Disconnected => {
                    self.next_available = SendOptions::Never;
                    return ;
                },
            }
        }
    }

    /// Refreshes the capacity oracle and tries to reclaim capacity: credits
    /// a previously promised slot whose time has come, drains the response
    /// stream, and — if still full — waits for the receiver's clock to
    /// reach the sender's before draining once more.
    fn update_len(&mut self)
        requires
            old(self).wf(),
            old(self).is_attached(),
        ensures
            final(self).wf(),
            final(self).steady(*old(self)),
            final(self).delta() <= old(self).delta(),
            final(self).sent_log() == old(self).sent_log(),
            final(self).event_log() == old(self).event_log(),
            old(self).tlb().cycles <= final(self).tlb().cycles,
            old(self).oracle() matches SendOptions::AvailableAt(t) && t.cycles <= old(self).tlb().cycles && old(self).delta() > 0 ==> final(self).delta() < old(self).delta(),
            old(self).oracle() matches SendOptions::AvailableAt(t) && t.cycles > final(self).tlb().cycles ==> final(self).delta() == old(self).delta() && final(self).oracle()
                == old(self).oracle(),
    {
        let send_time = self.sender_tlb();
        match self.next_available {
            SendOptions::AvailableAt(time) => {
                if time.cycles <= send_time.cycles {
                    // The promised drain time has passed: the slot is free.
                    // The shared counter was already lowered by the receiver
                    // when it consumed the element.
                    self.next_available = SendOptions::Unknown;
                    if self.send_receive_delta > 0 {
                        self.send_receive_delta = self.send_receive_delta - 1;
                    }
                } else {
                    // The promise lies in the future; nothing to reclaim yet.
                    return ;
                }
            },
            _ => {},
        }
        self.update_srd();
        if self.send_receive_delta < self.capacity {
            return ;
        }
        let new_time = self.wait_receiver(send_time);
        // Absorb any drains the wait made visible.
        self.update_srd();
        if matches!(self.next_available, SendOptions::Unknown) {
            self.next_available = SendOptions::CheckBackAt(new_time.incr());
        }
    }

    /// The fullness oracle: a void sender is never full; otherwise the
    /// local count decides, after a refresh through `update_len` when it
    /// has reached the capacity.
    fn is_full(&mut self) -> (r: bool)
        requires
            old(self).wf(),
            !old(self).is_void() ==> old(self).is_attached(),
        ensures
            final(self).wf(),
            final(self).steady(*old(self)),
            final(self).delta() <= old(self).delta(),
            final(self).sent_log() == old(self).sent_log(),
            old(self).tlb().cycles <= final(self).tlb().cycles,
            old(self).is_void() ==> !r && *final(self) == *old(self),
            !old(self).is_void() && old(self).delta() < old(self).cap() ==> !r && *final(self)
                == *old(self),
            !old(self).is_void() && old(self).delta() == old(self).cap() ==> final(self).event_log() == old(self).event_log().push(
                SendEvent::Len(old(self).id(), final(self).delta()),
            ),
            !r && !old(self).is_void() ==> final(self).delta() < final(self).cap(),
            r ==> final(self).delta() == final(self).cap(),
    {
        if matches!(&self.underlying, SenderState::Void) {
            return false;
        }
        if self.send_receive_delta < self.capacity {
            return false;
        }
        self.update_len();
        let entry = SendEvent::Len(self.view_struct.query_id(), self.send_receive_delta);
        log_push(&self.log, LogEntry::FromSender(entry));
        proof {
            self.events@ = self.events@.push(entry);
        }
        self.send_receive_delta == self.capacity
    }

    /// A non-blocking send. A void sender accepts everything and touches
    /// nothing. Otherwise, if the channel is full the current capacity
    /// oracle comes back as the error; if not, the element goes into the
    /// data stream, both in-flight counts rise by one, and a `Sent` event
    /// is emitted. A send whose data stream reports the receiver gone
    /// yields `Never` after undoing its counter raise.
    pub fn send(&mut self, elem: ChannelElement<T>) -> (r: Result<(), SendOptions>)
        requires
            old(self).wf(),
            !old(self).is_closed(),
            !old(self).is_void() ==> old(self).is_attached() && old(self).tlb().cycles
                <= elem.time.cycles,
        ensures
            final(self).wf(),
            final(self).steady(*old(self)),
            final(self).is_void() == old(self).is_void(),
            final(self).is_closed() == old(self).is_closed(),
            final(self).is_attached() == old(self).is_attached(),
            final(self).cap() == old(self).cap(),
            final(self).id() == old(self).id(),
            old(self).is_void() ==> r is Ok && *final(self) == *old(self),
            r is Ok && !old(self).is_void() ==> final(self).sent_log() == old(self).sent_log().push(elem) && 1 <= final(self).delta() <= final(self).cap()
                && final(self).event_log().len() >= 1 && final(self).event_log().last()
                == SendEvent::Sent(old(self).id()),
            r matches Err(o) ==> o == final(self).oracle() && final(self).sent_log() == old(self).sent_log(),
            r is Err ==> final(self).delta() <= old(self).delta(),
            !old(self).is_void() && old(self).delta() < old(self).cap() ==> (r is Ok || r
                == Err::<(), SendOptions>(SendOptions::Never)),
            !old(self).is_void() && old(self).delta() < old(self).cap() && r is Ok ==> final(self).delta() == old(self).delta() + 1,
            old(self).tlb().cycles <= final(self).tlb().cycles,
    {
        if matches!(&self.underlying, SenderState::Void) {
            return Ok(());
        }
        if self.is_full() {
            return Err(self.next_available);
        }
        // Raise the shared counter before the element becomes visible, so
        // the receiver can never observe an element without the count.
        let _prev = self.view_struct.incr_delta();
        let outcome = match &self.underlying {
            SenderState::Open(tx) => stream_push(tx, elem),
            SenderState::Closed => {
                proof {
                    assert(false);
                }
                Pushed::Refused(elem)
            },
            SenderState::Void => {
                proof {
                    assert(false);
                }
                Pushed::Refused(elem)
            },
        };
        match outcome {
            Pushed::Accepted => {
                self.send_receive_delta = self.send_receive_delta + 1;
                proof {
                    self.sent@ = self.sent@.push(elem);
                }
                let entry = SendEvent::Sent(self.view_struct.query_id());
                log_push(&self.log, LogEntry::FromSender(entry));
                proof {
                    self.events@ = self.events@.push(entry);
                }
                Ok(())
            },
            Pushed::Refused(_) => {
                // The receiver endpoint is gone: no element was queued, so
                // take the counter raise back and report that no send will
                // ever succeed.
                let _undone = self.view_struct.decr_delta();
                self.next_available = SendOptions::Never;
                Err(SendOptions::Never)
            },
        }
    }

    /// Drops the underlying data stream; a closed sender refuses every
    /// further send by contract.
    pub fn close(&mut self)
        ensures
            final(self).is_closed(),
            final(self).delta() == old(self).delta(),
            final(self).cap() == old(self).cap(),
            final(self).oracle() == old(self).oracle(),
            final(self).tlb() == old(self).tlb(),
            final(self).sent_log() == old(self).sent_log(),
            final(self).event_log() == old(self).event_log(),
            final(self).is_attached() == old(self).is_attached(),
            final(self).id() == old(self).id(),
    {
        self.underlying = SenderState::Closed;
    }

    /// What an endpoint does when its owner is done with it.
    pub fn cleanup(&mut self)
        ensures
            final(self).is_closed(),
            final(self).sent_log() == old(self).sent_log(),
            final(self).event_log() == old(self).event_log(),
    {
        self.close();
    }

    /// This channel's identity.
    pub fn channel_id(&self) -> (r: ChannelID)
        ensures
            r == self.id(),
    {
        self.view_struct.query_id()
    }

    /// The flavor hint this channel was created with.
    pub fn query_flavor(&self) -> (r: ChannelFlavor)
        ensures
            r == self.flav(),
    {
        self.view_struct.query_flavor()
    }

    /// The local in-flight upper bound.
    pub fn local_delta(&self) -> (r: usize)
        ensures
            r == self.delta(),
    {
        self.send_receive_delta
    }

    /// The shared in-flight counter, at some instant during the call.
    pub fn in_flight(&self) -> usize {
        self.view_struct.current_delta()
    }

    /// A blocking send for the adapter surface: retries a refused send,
    /// advancing the managing clock to the oracle's next opportunity (and
    /// at least one tick) before each retry, and re-stamping the element
    /// with the fresh TLB. Fails only when the receiver is gone or
    /// simulated time has run out.
    pub fn enqueue(&mut self, manager: &LocalClock, elem: ChannelElement<T>) -> (r: Result<
        (),
        EnqueueError,
    >)
        requires
            old(self).wf(),
            !old(self).is_closed(),
            !old(self).is_void() ==> old(self).is_attached(),
        ensures
            final(self).wf(),
            final(self).is_void() == old(self).is_void(),
            final(self).is_closed() == old(self).is_closed(),
            final(self).is_attached() == old(self).is_attached(),
            final(self).cap() == old(self).cap(),
            final(self).id() == old(self).id(),
            old(self).is_void() ==> r is Ok && *final(self) == *old(self),
            r is Ok && !old(self).is_void() ==> final(self).sent_log().len() == old(self).sent_log().len() + 1 && final(self).sent_log().last().data == elem.data && final(self).sent_log().last().time.cycles >= elem.time.cycles,
            r is Err ==> final(self).sent_log() == old(self).sent_log(),
    {
        if matches!(&self.underlying, SenderState::Void) {
            let _accepted = self.send(elem);
            return Ok(());
        }
        let ghost entry_state = *self;
        let mut item = elem;
        loop
            invariant
                self.wf(),
                self.steady(entry_state),
                !self.is_closed(),
                self.is_attached(),
                !self.is_void(),
                item.data == elem.data,
                item.time.cycles >= elem.time.cycles,
                self.sent_log() == entry_state.sent_log(),
                entry_state == *old(self),
            decreases u64::MAX - self.tlb_cache.cycles,
        {
            let ghost round_tlb = self.tlb_cache;
            let now = self.sender_tlb();
            item.update_time(now);
            match self.send(item) {
                Ok(()) => {
                    return Ok(());
                },
                Err(SendOptions::Never) => {
                    return Err(EnqueueError {});
                },
                Err(refusal) => {
                    let target = match refusal {
                        SendOptions::AvailableAt(t) => t,
                        SendOptions::CheckBackAt(t) => t,
                        _ => self.sender_tlb(),
                    };
                    let cur = self.sender_tlb();
                    if cur.is_infinite() {
                        // Simulated time is exhausted; no slot can open.
                        return Err(EnqueueError {});
                    }
                    let goal = target.max(cur.incr());
                    manager.advance(goal);
                    // The managing clock now reads at least `goal`, so the
                    // cache may be raised to it.
                    self.tlb_cache = self.tlb_cache.max(goal);
                },
            }
        }
    }

    /// Blocks (by advancing the managing clock round by round) until the
    /// channel has a free slot, or fails when the receiver is gone or
    /// simulated time has run out.
    pub fn wait_until_available(&mut self, manager: &LocalClock) -> (r: Result<(), EnqueueError>)
        requires
            old(self).wf(),
            !old(self).is_closed(),
            !old(self).is_void() ==> old(self).is_attached(),
        ensures
            final(self).wf(),
            final(self).is_void() == old(self).is_void(),
            final(self).is_closed() == old(self).is_closed(),
            final(self).is_attached() == old(self).is_attached(),
            final(self).sent_log() == old(self).sent_log(),
            old(self).is_void() ==> r is Ok && *final(self) == *old(self),
            r is Ok && !old(self).is_void() ==> final(self).delta() < final(self).cap(),
            !old(self).is_void() && old(self).delta() < old(self).cap() ==> r is Ok,
    {
        if matches!(&self.underlying, SenderState::Void) {
            return Ok(());
        }
        if self.send_receive_delta < self.capacity {
            // A slot is already free; nothing to wait for.
            return Ok(());
        }
        let ghost entry_state = *self;
        loop
            invariant
                self.wf(),
                self.steady(entry_state),
                !self.is_closed(),
                self.is_attached(),
                !self.is_void(),
                self.sent_log() == entry_state.sent_log(),
                entry_state == *old(self),
                entry_state.delta() >= entry_state.cap(),
            decreases u64::MAX - self.tlb_cache.cycles,
        {
            if !self.is_full() {
                return Ok(());
            }
            let refusal = self.next_available;
            let target = match refusal {
                SendOptions::Never => {
                    return Err(EnqueueError {});
                },
                SendOptions::AvailableAt(t) => t,
                SendOptions::CheckBackAt(t) => t,
                SendOptions::Unknown => self.sender_tlb(),
            };
            let cur = self.sender_tlb();
            if cur.is_infinite() {
                return Err(EnqueueError {});
            }
            let goal = target.max(cur.incr());
            manager.advance(goal);
            self.tlb_cache = self.tlb_cache.max(goal);
        }
    }
}

/// The sender's half of the capacity bound: its local in-flight upper
/// bound, which its sends are gated on, never exceeds the capacity.
pub proof fn lemma_local_capacity<T: Copy>(s: Sender<T>)
    requires
        s.wf(),
    ensures
        s.delta() <= s.cap(),
{
}

} // verus!
