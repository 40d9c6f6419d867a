//! The types a channel is described by — identity, flavor, elements, the
//! sender's capacity oracle, the receiver's head cache, log events — and the
//! `ViewStruct`, the one piece of state a sender and receiver share: the
//! channel's identity, the two attached clock views, and the atomic counter
//! of elements currently in flight.

use crate::clock::TimeView;
use crate::time::Time;
use core::sync::atomic::AtomicUsize;
use core::sync::atomic::Ordering;
use std::sync::Arc;
use vstd::prelude::*;

verus! {

/// Identity of one channel, used to label its log events.
#[derive(Clone, Copy, Debug, PartialEq, Eq, Structural, Hash)]
pub struct ChannelID {
    pub id: u64,
}

/// Relies on std::time::SystemTime::now: a fresh wall-clock stamp, in
/// nanoseconds since the epoch. The plain factories draw default channel
/// identities from it; two channels created within one clock tick can share
/// a stamp, so this is best effort only. Ids label log events and play no
/// part in any channel's behaviour; an application that needs ids that are
/// guaranteed distinct supplies its own through `ChannelID::new` and the
/// `with_id` constructors.
#[verifier::external_body]
fn fresh_stamp() -> u64 {
    std::time::SystemTime::now()
        .duration_since(std::time::UNIX_EPOCH)
        .map(|d| d.as_nanos() as u64)
        .unwrap_or(0)
}

impl ChannelID {
    /// An identity chosen by the caller, who is responsible for keeping the
    /// ids it hands out distinct.
    pub fn new(id: u64) -> (r: ChannelID)
        ensures
            r.id == id,
    {
        ChannelID { id }
    }

    pub(crate) fn fresh() -> ChannelID {
        ChannelID { id: fresh_stamp() }
    }
}

/// Metadata hint describing the channel's role in the simulated graph; the
/// core preserves it but never interprets it.
#[derive(Clone, Copy, Debug, PartialEq, Eq, Structural)]
pub enum ChannelFlavor {
    Unknown,
    Acyclic,
    Cyclic,
}

/// One element in flight: a payload stamped with the simulated time at which
/// it was sent. The stamp is at least the sender's TLB at the send.
#[derive(Clone, Copy, Debug, PartialEq)]
pub struct ChannelElement<T> {
    pub time: Time,
    pub data: T,
}

impl<T: Copy> ChannelElement<T> {
    pub fn new(time: Time, data: T) -> (r: ChannelElement<T>)
        ensures
            r.time == time,
            r.data == data,
    {
        ChannelElement { time, data }
    }

    /// Raises the stamp to `new_time` if that is later; a stamp never moves
    /// backwards.
    pub fn update_time(&mut self, new_time: Time)
        ensures
            final(self).data == old(self).data,
            final(self).time.cycles == if old(self).time.cycles >= new_time.cycles {
                old(self).time.cycles
            } else {
                new_time.cycles
            },
            final(self).time.cycles >= old(self).time.cycles,
            final(self).time.cycles >= new_time.cycles,
    {
        self.time = self.time.max(new_time);
    }
}

/// The sender's capacity oracle: what a refused send says about when a slot
/// may open.
#[derive(Clone, Copy, Debug, PartialEq, Eq, Structural)]
pub enum SendOptions {
    /// No information.
    Unknown,
    /// An in-flight element will have been drained by this simulated time.
    AvailableAt(Time),
    /// Nothing is known before this simulated time; ask again then.
    CheckBackAt(Time),
    /// The receiver is gone; no send will ever succeed.
    Never,
}

/// The receiver's head cache.
#[derive(Clone, Copy, Debug, PartialEq)]
pub enum Recv<T> {
    /// An element read from the stream but not yet consumed.
    Something(ChannelElement<T>),
    /// The channel was observed empty, and no element can arrive stamped
    /// before this time.
    Nothing(Time),
    /// The sender endpoint is gone and the stream is drained.
    Closed,
    /// The cache holds nothing; it must be refreshed from the stream.
    Unknown,
}

/// What a sender reports to the log stream.
#[derive(Clone, Copy, Debug, PartialEq)]
pub enum SendEvent {
    /// One element was enqueued.
    Sent(ChannelID),
    /// The sender consulted its capacity oracle while full; carries the
    /// local in-flight count.
    Len(ChannelID, usize),
}

/// What a receiver reports to the log stream.
#[derive(Clone, Copy, Debug, PartialEq)]
pub enum ReceiverEvent {
    Peek(ChannelID),
    Recv(ChannelID),
}

/// One entry of the log stream, from either endpoint.
#[derive(Clone, Copy, Debug, PartialEq)]
pub enum LogEntry {
    FromSender(SendEvent),
    FromReceiver(ReceiverEvent),
}

/// Returned by the adapter surface when a dequeue meets a channel closed by
/// the simulation.
#[derive(Clone, Copy, Debug, PartialEq, Eq, Structural)]
pub struct DequeueError {}

impl DequeueError {
    pub fn message(&self) -> (r: &'static str)
        ensures
            r@ == "Attempted to dequeue from simulation-closed channel!"@,
    {
        "Attempted to dequeue from simulation-closed channel!"
    }
}

/// Returned by the adapter surface when an enqueue meets a channel closed by
/// the simulation.
#[derive(Clone, Copy, Debug, PartialEq, Eq, Structural)]
pub struct EnqueueError {}

impl EnqueueError {
    pub fn message(&self) -> (r: &'static str)
        ensures
            r@ == "Attempted to enqueue to a simulation-closed channel!"@,
    {
        "Attempted to enqueue to a simulation-closed channel!"
    }
}

/// The clock views of the two actors a channel connects, each attached at
/// most once.
pub struct ViewSlots {
    pub sender: Option<TimeView>,
    pub receiver: Option<TimeView>,
}

/// Trivial lock predicate: any pair of slots may be stored.
pub struct SlotsInv;

impl vstd::rwlock::RwLockPredicate<ViewSlots> for SlotsInv {
    open spec fn inv(self, v: ViewSlots) -> bool {
        true
    }
}

/// Per-channel shared state: identity, flavor, the two attached clock
/// views, and the atomic count of elements currently in flight (raised by
/// the sender on a successful send, lowered by the receiver on a consume).
pub struct ViewStruct {
    pub channel_id: ChannelID,
    flavor: ChannelFlavor,
    counter: Arc<AtomicUsize>,
    slots: Arc<vstd::rwlock::RwLock<ViewSlots, SlotsInv>>,
}

impl ViewStruct {
    /// Fresh shared state under a best-effort identity drawn from the wall
    /// clock (see `fresh_stamp`); the counter starts at zero and both view
    /// slots are empty.
    pub fn new(flavor: ChannelFlavor) -> (r: ViewStruct)
        ensures
            r.flavor() == flavor,
    {
        ViewStruct::with_id(flavor, ChannelID::fresh())
    }

    /// Fresh shared state under a caller-supplied identity.
    pub fn with_id(flavor: ChannelFlavor, channel_id: ChannelID) -> (r: ViewStruct)
        ensures
            r.flavor() == flavor,
            r.id() == channel_id,
    {
        ViewStruct {
            channel_id,
            flavor,
            counter: Arc::new(AtomicUsize::new(0)),
            slots: Arc::new(
                vstd::rwlock::RwLock::new(
                    ViewSlots { sender: None, receiver: None },
                    Ghost(SlotsInv),
                ),
            ),
        }
    }

    pub closed spec fn flavor(&self) -> ChannelFlavor {
        self.flavor
    }

    pub closed spec fn id(&self) -> ChannelID {
        self.channel_id
    }

    pub fn query_id(&self) -> (r: ChannelID)
        ensures
            r == self.id(),
    {
        self.channel_id
    }

    pub fn query_flavor(&self) -> (r: ChannelFlavor)
        ensures
            r == self.flavor(),
    {
        self.flavor
    }

    /// A second handle on the same shared state, for the opposite endpoint.
    pub fn share(&self) -> (r: ViewStruct)
        ensures
            r.id() == self.id(),
            r.flavor() == self.flavor(),
    {
        ViewStruct {
            channel_id: self.channel_id,
            flavor: self.flavor,
            counter: Arc::clone(&self.counter),
            slots: Arc::clone(&self.slots),
        }
    }

    /// Records the sending actor's clock view, for the receiver to wait on.
    pub fn attach_sender(&self, sender: &TimeView) {
        let (mut slots, handle) = self.slots.acquire_write();
        slots.sender = Some(sender.share());
        handle.release_write(slots);
    }

    /// Records the receiving actor's clock view, for the sender to wait on.
    pub fn attach_receiver(&self, receiver: &TimeView) {
        let (mut slots, handle) = self.slots.acquire_write();
        slots.receiver = Some(receiver.share());
        handle.release_write(slots);
    }

    /// The sending actor's view, if attached yet.
    pub fn sender_view(&self) -> Option<TimeView> {
        let handle = self.slots.acquire_read();
        let r = match &handle.borrow().sender {
            Some(v) => Some(v.share()),
            None => None,
        };
        handle.release_read();
        r
    }

    /// The receiving actor's view, if attached yet.
    pub fn receiver_view(&self) -> Option<TimeView> {
        let handle = self.slots.acquire_read();
        let r = match &handle.borrow().receiver {
            Some(v) => Some(v.share()),
            None => None,
        };
        handle.release_read();
        r
    }

    /// Raises the in-flight counter by one; returns the count before.
    pub fn incr_delta(&self) -> usize {
        self.counter.fetch_add(1, Ordering::AcqRel)
    }

    /// Lowers the in-flight counter by one; returns the count before.
    pub fn decr_delta(&self) -> usize {
        self.counter.fetch_sub(1, Ordering::AcqRel)
    }

    /// The in-flight count at some instant during the call.
    pub fn current_delta(&self) -> usize {
        self.counter.load(Ordering::Acquire)
    }
}

} // verus!
