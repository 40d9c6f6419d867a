//! The two FIFO byte-streams a channel is built on: the data stream
//! (sender to receiver) and the response stream of drain timestamps
//! (receiver to sender). Both are crossbeam channels, held in the two
//! opaque endpoint structs below; every call into crossbeam goes through
//! the small trusted wrappers, and the state machines are verified against
//! what those wrappers state.
//!
//! A stream is shared between two threads, so nothing about its contents can
//! be promised to one endpoint: each wrapper states only what holds of every
//! outcome, and the verified callers handle each outcome.

use vstd::prelude::*;

verus! {

/// The pushing end of one FIFO stream; holds a crossbeam sender.
#[verifier::external_body]
#[verifier::reject_recursive_types(T)]
pub struct StreamSender<T> {
    inner: crossbeam::channel::Sender<T>,
}

/// The pulling end of one FIFO stream; holds a crossbeam receiver.
#[verifier::external_body]
#[verifier::reject_recursive_types(T)]
pub struct StreamReceiver<T> {
    inner: crossbeam::channel::Receiver<T>,
}

/// Outcome of a non-blocking read from a stream.
pub enum TryRead<T> {
    /// The oldest queued item.
    Got(T),
    /// Nothing queued, but the far endpoint is still alive.
    Empty,
    /// Nothing queued and the far endpoint has been dropped.
    Disconnected,
}

/// Outcome of pushing one item into a stream.
pub enum Pushed<T> {
    /// The item was queued.
    Accepted,
    /// The far endpoint has been dropped; the item comes back.
    Refused(T),
}

/// Relies on crossbeam_channel::bounded: a FIFO holding at most `cap`
/// in-flight items, delivered in push order.
#[verifier::external_body]
pub(crate) fn stream_bounded<T>(cap: usize) -> (StreamSender<T>, StreamReceiver<T>) {
    let (tx, rx) = crossbeam::channel::bounded(cap);
    (StreamSender { inner: tx }, StreamReceiver { inner: rx })
}

/// Relies on crossbeam_channel::unbounded: a FIFO without a capacity bound,
/// delivered in push order.
#[verifier::external_body]
pub(crate) fn stream_unbounded<T>() -> (StreamSender<T>, StreamReceiver<T>) {
    let (tx, rx) = crossbeam::channel::unbounded();
    (StreamSender { inner: tx }, StreamReceiver { inner: rx })
}

/// Relies on crossbeam_channel::never: a stream that never yields an item
/// and never reports disconnection.
#[verifier::external_body]
pub(crate) fn stream_never<T>() -> StreamReceiver<T> {
    StreamReceiver { inner: crossbeam::channel::never() }
}

/// Relies on crossbeam_channel::Sender::send: queues the item unless every
/// receiving endpoint was dropped, in which case the item is handed back.
/// Blocks while a bounded stream is full.
#[verifier::external_body]
pub(crate) fn stream_push<T>(tx: &StreamSender<T>, item: T) -> (r: Pushed<T>)
    ensures
        r matches Pushed::Refused(it) ==> it == item,
{
    match tx.inner.send(item) {
        Ok(()) => Pushed::Accepted,
        Err(e) => Pushed::Refused(e.0),
    }
}

/// Relies on crossbeam_channel::Sender::clone: another pushing handle on
/// the same stream.
#[verifier::external_body]
pub(crate) fn stream_share<T>(tx: &StreamSender<T>) -> StreamSender<T> {
    StreamSender { inner: tx.inner.clone() }
}

/// Relies on crossbeam_channel::Receiver::recv: blocks until an item is
/// queued (returned as `Some`) or every sending endpoint was dropped and the
/// stream is drained (`None`).
#[verifier::external_body]
pub(crate) fn stream_pull<T>(rx: &StreamReceiver<T>) -> Option<T> {
    rx.inner.recv().ok()
}

/// Relies on crossbeam_channel::Receiver::try_recv: never blocks; reports an
/// item, an empty stream, or a stream whose senders are gone and which is
/// drained.
#[verifier::external_body]
pub(crate) fn stream_try_pull<T>(rx: &StreamReceiver<T>) -> TryRead<T> {
    match rx.inner.try_recv() {
        Ok(item) => TryRead::Got(item),
        Err(crossbeam::channel::TryRecvError::Empty) => TryRead::Empty,
        Err(crossbeam::channel::TryRecvError::Disconnected) => TryRead::Disconnected,
    }
}

} // verus!
