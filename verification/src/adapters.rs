//! Adapters for converting between channel element types at the channel
//! boundary: a `Receiver<T>` serves as a receive adapter over any `U` that
//! `T` converts into, and a `Sender<T>` as a send adapter over any `U` that
//! `T` converts from. Conversions touch the payload only; the time stamp
//! crosses the boundary verbatim.

use crate::channel::ChannelElement;
use crate::channel::DequeueError;
use crate::channel::EnqueueError;
use crate::channel::Recv;
use crate::clock::LocalClock;
use crate::receiver::Receiver;
use crate::sender::Sender;
use vstd::prelude::*;

verus! {

/// Converts one element's payload; the stamp is preserved verbatim.
pub fn convert_element<T: Copy, U: From<T> + Copy>(e: ChannelElement<T>) -> (r: ChannelElement<U>)
    ensures
        r.time == e.time,
        <U as vstd::std_specs::convert::FromSpec<T>>::obeys_from_spec() ==> r.data == <U as vstd::std_specs::convert::FromSpec<T>>::from_spec(e.data),
{
    ChannelElement { time: e.time, data: U::from(e.data) }
}

/// A receiving facade over element type `U`, delegating and converting the
/// underlying operations.
pub trait RecvAdapter<U: Copy>: Sized {
    /// The endpoint is open and attached, so the underlying operations are
    /// permitted.
    spec fn adapter_ready(&self) -> bool;

    /// Clock-aware non-destructive inspection, as the underlying peek.
    fn peek(&mut self) -> (r: Recv<U>)
        requires
            old(self).adapter_ready(),
        ensures
            final(self).adapter_ready(),
            !(r is Unknown),
    ;

    /// Blocking peek; `DequeueError` once the channel is closed and drained.
    /// The managing clock is threaded through uninterpreted, for callers
    /// that hand one to every channel operation.
    fn peek_next(&mut self, manager: &LocalClock) -> (r: Result<ChannelElement<U>, DequeueError>)
        requires
            old(self).adapter_ready(),
        ensures
            final(self).adapter_ready(),
    ;

    /// Blocking consume; `DequeueError` once the channel is closed and
    /// drained. The managing clock is threaded through uninterpreted.
    fn dequeue(&mut self, manager: &LocalClock) -> (r: Result<ChannelElement<U>, DequeueError>)
        requires
            old(self).adapter_ready(),
        ensures
            final(self).adapter_ready(),
    ;
}

impl<T: Copy, U: From<T> + Copy> RecvAdapter<U> for Receiver<T> {
    open spec fn adapter_ready(&self) -> bool {
        self.is_open() && self.is_attached() && self.wf()
    }

    fn peek(&mut self) -> (r: Recv<U>) {
        match Receiver::peek(self) {
            Recv::Something(ce) => Recv::Something(convert_element(ce)),
            Recv::Nothing(time) => Recv::Nothing(time),
            Recv::Closed => Recv::Closed,
            Recv::Unknown => {
                proof {
                    assert(false);
                }
                Recv::Unknown
            },
        }
    }

    fn peek_next(&mut self, _manager: &LocalClock) -> (r: Result<
        ChannelElement<U>,
        DequeueError,
    >) {
        match Receiver::peek_next(self) {
            Ok(ce) => Ok(convert_element(ce)),
            Err(e) => Err(e),
        }
    }

    fn dequeue(&mut self, _manager: &LocalClock) -> (r: Result<
        ChannelElement<U>,
        DequeueError,
    >) {
        match Receiver::dequeue(self) {
            Ok(ce) => Ok(convert_element(ce)),
            Err(e) => Err(e),
        }
    }
}

/// A sending facade over element type `U`, delegating and converting the
/// underlying operations.
pub trait SendAdapter<U: Copy>: Sized {
    /// The endpoint is usable: not closed, and attached unless void.
    spec fn adapter_ready(&self) -> bool;

    /// Blocking converting send, advancing the managing clock between
    /// retries; `EnqueueError` when the channel can never accept again.
    fn enqueue(&mut self, manager: &LocalClock, data: ChannelElement<U>) -> (r: Result<
        (),
        EnqueueError,
    >)
        requires
            old(self).adapter_ready(),
        ensures
            final(self).adapter_ready(),
    ;

    /// Blocks until a slot is free; `EnqueueError` when that can never
    /// happen again.
    fn wait_until_available(&mut self, manager: &LocalClock) -> (r: Result<(), EnqueueError>)
        requires
            old(self).adapter_ready(),
        ensures
            final(self).adapter_ready(),
    ;
}

impl<T: Copy + From<U>, U: Copy> SendAdapter<U> for Sender<T> {
    open spec fn adapter_ready(&self) -> bool {
        self.wf() && !self.is_closed() && (!self.is_void() ==> self.is_attached())
    }

    fn enqueue(&mut self, manager: &LocalClock, data: ChannelElement<U>) -> (r: Result<
        (),
        EnqueueError,
    >) {
        let converted = convert_element::<U, T>(data);
        Sender::enqueue(self, manager, converted)
    }

    fn wait_until_available(&mut self, manager: &LocalClock) -> (r: Result<(), EnqueueError>) {
        Sender::wait_until_available(self, manager)
    }
}

} // verus!
