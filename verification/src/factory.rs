//! Channel factories: a sender/receiver pair over a bounded or unbounded
//! pair of streams, or a lone void sender that discards everything.
//!
//! Every factory allocates the data stream and the response stream with the
//! same bound and a fresh `ViewStruct` whose in-flight counter starts at
//! zero.

use crate::channel::ChannelElement;
use crate::channel::ChannelFlavor;
use crate::channel::ChannelID;
use crate::channel::SendOptions;
use crate::channel::ViewStruct;
use crate::receiver::Receiver;
use crate::receiver::ReceiverState;
use crate::sender::Sender;
use crate::sender::SenderState;
use crate::time::Time;
use crate::transport::stream_bounded;
use crate::transport::stream_never;
use crate::transport::stream_unbounded;
use vstd::prelude::*;

verus! {

/// A bounded channel of the given capacity, with no flavor hint.
pub fn bounded<T: Copy>(capacity: usize) -> (r: (Sender<T>, Receiver<T>))
    ensures
        r.0.wf(),
        r.1.wf(),
        r.0.is_open(),
        r.1.is_open(),
        !r.0.is_closed(),
        !r.0.is_void(),
        !r.1.is_closed(),
        !r.0.is_attached(),
        !r.1.is_attached(),
        r.0.cap() == capacity,
        r.0.delta() == 0,
        r.0.oracle() == SendOptions::Unknown,
        r.0.tlb() == (Time { cycles: 0 }),
        r.1.tlb() == (Time { cycles: 0 }),
        r.1.head_cache() is Unknown,
        r.0.id() == r.1.id(),
        r.0.sent_log() =~= Seq::<ChannelElement<T>>::empty(),
        r.1.delivered_log() =~= Seq::<ChannelElement<T>>::empty(),
        r.1.ack_log() =~= Seq::<Time>::empty(),
        r.0.event_log().len() == 0,
        r.1.event_log().len() == 0,
        r.0.flav() == ChannelFlavor::Unknown,
        r.1.flav() == ChannelFlavor::Unknown,
{
    bounded_with_flavor(capacity, ChannelFlavor::Unknown)
}

/// A bounded channel of the given capacity, carrying the caller's flavor
/// hint.
pub fn bounded_with_flavor<T: Copy>(capacity: usize, flavor: ChannelFlavor) -> (r: (
    Sender<T>,
    Receiver<T>,
))
    ensures
        r.0.wf(),
        r.1.wf(),
        r.0.is_open(),
        r.1.is_open(),
        !r.0.is_closed(),
        !r.0.is_void(),
        !r.1.is_closed(),
        !r.0.is_attached(),
        !r.1.is_attached(),
        r.0.cap() == capacity,
        r.0.delta() == 0,
        r.0.oracle() == SendOptions::Unknown,
        r.0.tlb() == (Time { cycles: 0 }),
        r.1.tlb() == (Time { cycles: 0 }),
        r.1.head_cache() is Unknown,
        r.0.id() == r.1.id(),
        r.0.sent_log() =~= Seq::<ChannelElement<T>>::empty(),
        r.1.delivered_log() =~= Seq::<ChannelElement<T>>::empty(),
        r.1.ack_log() =~= Seq::<Time>::empty(),
        r.0.event_log().len() == 0,
        r.1.event_log().len() == 0,
        r.0.flav() == flavor,
        r.1.flav() == flavor,
{
    let (tx, rx) = stream_bounded::<ChannelElement<T>>(capacity);
    let (resp_tx, resp_rx) = stream_bounded::<Time>(capacity);
    let view_struct = ViewStruct::new(flavor);
    let other = view_struct.share();
    let snd = Sender::assemble(SenderState::Open(tx), resp_rx, capacity, view_struct);
    let rcv = Receiver::assemble(ReceiverState::Open(rx), resp_tx, other);
    (snd, rcv)
}

/// A bounded channel under an identity the caller supplies. The plain
/// factories stamp channels from the wall clock, which does not guarantee
/// distinct ids; an application that needs them distinct (for log
/// attribution) numbers its channels itself and builds them here.
pub fn bounded_with_id<T: Copy>(
    capacity: usize,
    flavor: ChannelFlavor,
    channel_id: ChannelID,
) -> (r: (Sender<T>, Receiver<T>))
    ensures
        r.0.wf(),
        r.1.wf(),
        r.0.is_open(),
        r.1.is_open(),
        !r.0.is_closed(),
        !r.0.is_void(),
        !r.1.is_closed(),
        !r.0.is_attached(),
        !r.1.is_attached(),
        r.0.cap() == capacity,
        r.0.delta() == 0,
        r.0.oracle() == SendOptions::Unknown,
        r.0.tlb() == (Time { cycles: 0 }),
        r.1.tlb() == (Time { cycles: 0 }),
        r.1.head_cache() is Unknown,
        r.0.id() == channel_id,
        r.1.id() == channel_id,
        r.0.sent_log() =~= Seq::<ChannelElement<T>>::empty(),
        r.1.delivered_log() =~= Seq::<ChannelElement<T>>::empty(),
        r.1.ack_log() =~= Seq::<Time>::empty(),
        r.0.event_log().len() == 0,
        r.1.event_log().len() == 0,
        r.0.flav() == flavor,
        r.1.flav() == flavor,
{
    let (tx, rx) = stream_bounded::<ChannelElement<T>>(capacity);
    let (resp_tx, resp_rx) = stream_bounded::<Time>(capacity);
    let view_struct = ViewStruct::with_id(flavor, channel_id);
    let other = view_struct.share();
    let snd = Sender::assemble(SenderState::Open(tx), resp_rx, capacity, view_struct);
    let rcv = Receiver::assemble(ReceiverState::Open(rx), resp_tx, other);
    (snd, rcv)
}

/// An unbounded channel: the sender's capacity is the maximum the count can
/// express, and both streams are unbounded.
pub fn unbounded<T: Copy>() -> (r: (Sender<T>, Receiver<T>))
    ensures
        r.0.wf(),
        r.1.wf(),
        r.0.is_open(),
        r.1.is_open(),
        !r.0.is_closed(),
        !r.0.is_void(),
        !r.1.is_closed(),
        !r.0.is_attached(),
        !r.1.is_attached(),
        r.0.cap() == usize::MAX,
        r.0.delta() == 0,
        r.0.oracle() == SendOptions::Unknown,
        r.0.tlb() == (Time { cycles: 0 }),
        r.1.tlb() == (Time { cycles: 0 }),
        r.1.head_cache() is Unknown,
        r.0.id() == r.1.id(),
        r.0.sent_log() =~= Seq::<ChannelElement<T>>::empty(),
        r.1.delivered_log() =~= Seq::<ChannelElement<T>>::empty(),
        r.1.ack_log() =~= Seq::<Time>::empty(),
        r.0.event_log().len() == 0,
        r.1.event_log().len() == 0,
        r.0.flav() == ChannelFlavor::Unknown,
        r.1.flav() == ChannelFlavor::Unknown,
{
    let (tx, rx) = stream_unbounded::<ChannelElement<T>>();
    let (resp_tx, resp_rx) = stream_unbounded::<Time>();
    let view_struct = ViewStruct::new(ChannelFlavor::Unknown);
    let other = view_struct.share();
    let snd = Sender::assemble(SenderState::Open(tx), resp_rx, usize::MAX, view_struct);
    let rcv = Receiver::assemble(ReceiverState::Open(rx), resp_tx, other);
    (snd, rcv)
}

/// A lone void sender: everything sent to it is silently discarded, it
/// never blocks, and its response stream never yields.
pub fn void<T: Copy>() -> (r: Sender<T>)
    ensures
        r.wf(),
        r.is_void(),
        !r.is_closed(),
        r.delta() == 0,
        r.cap() == usize::MAX,
        r.oracle() == SendOptions::Unknown,
        r.tlb() == (Time { cycles: 0 }),
        !r.is_attached(),
        r.sent_log() =~= Seq::<ChannelElement<T>>::empty(),
        r.event_log().len() == 0,
        r.flav() == ChannelFlavor::Unknown,
{
    Sender::assemble(
        SenderState::Void,
        stream_never::<Time>(),
        usize::MAX,
        ViewStruct::new(ChannelFlavor::Unknown),
    )
}

} // verus!
