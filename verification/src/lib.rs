//! Core of a discrete-event simulator's channel layer: bounded, unbounded and
//! void FIFO channels whose endpoints carry logical clocks, so that a sender
//! blocked on a full channel and a receiver waiting on an empty one can bound
//! the simulated time at which progress becomes possible.

pub mod adapters;
pub mod channel;
pub mod clock;
pub mod factory;
pub mod logging;
pub mod protocol;
pub mod receiver;
pub mod sender;
pub mod time;
pub mod transport;
