//! The log stream the endpoints report into, and the verified drain step a
//! log shipper runs: collect queued entries into a batch until the stream is
//! empty, the batch is full, or every producer is gone. Persisting a batch
//! (to a document store or anywhere else) is the shipper's own business.

use crate::channel::LogEntry;
use crate::transport::stream_push;
use crate::transport::stream_share;
use crate::transport::stream_try_pull;
use crate::transport::stream_unbounded;
use crate::transport::StreamReceiver;
use crate::transport::StreamSender;
use crate::transport::TryRead;
use vstd::prelude::*;

verus! {

/// Why one batch-collecting round stopped.
#[derive(Clone, Copy, Debug, PartialEq, Eq, Structural)]
pub enum BatchStatus {
    /// The batch limit was reached with entries possibly still queued.
    MoreQueued,
    /// The stream was drained; producers are still alive.
    Drained,
    /// The stream was drained and every producer is gone: the shipper is
    /// done after flushing what it holds.
    SourceClosed,
}

/// Pushes one entry at the log stream, if a log stream is attached;
/// delivery is best effort and a refusal is ignored.
pub(crate) fn log_push(log: &Option<StreamSender<LogEntry>>, entry: LogEntry) {
    match log {
        Some(tx) => {
            let _ = stream_push(tx, entry);
        },
        None => {},
    }
}

/// A fresh unbounded log stream: the push end is handed to endpoints via
/// `attach_logger`, the pull end to a shipper.
pub fn log_stream() -> (StreamSender<LogEntry>, StreamReceiver<LogEntry>) {
    stream_unbounded()
}

/// Another pushing handle on the same log stream, so that both endpoints
/// of a channel (or many channels) can report into one shipper.
pub fn share_log_handle(tx: &StreamSender<LogEntry>) -> StreamSender<LogEntry> {
    stream_share(tx)
}

/// Pulls up to `limit` queued entries into `batch`, in stream order,
/// stopping early when the stream runs dry or its producers are gone. The
/// entries already in the batch stay untouched in front.
pub fn collect_batch(rx: &StreamReceiver<LogEntry>, batch: &mut Vec<LogEntry>, limit: usize) -> (r:
    BatchStatus)
    ensures
        old(batch)@.is_prefix_of(final(batch)@),
        final(batch)@.len() <= old(batch)@.len() + limit,
        r == BatchStatus::MoreQueued ==> final(batch)@.len() == old(batch)@.len() + limit,
{
    let ghost entry_batch = batch@;
    let mut left: usize = limit;
    loop
        invariant
            entry_batch.is_prefix_of(batch@),
            batch@.len() + left == entry_batch.len() + limit,
            entry_batch == old(batch)@,
        decreases left,
    {
        if left == 0 {
            return BatchStatus::MoreQueued;
        }
        match stream_try_pull(rx) {
            TryRead::Got(entry) => {
                batch.push(entry);
                left = left - 1;
            },
            TryRead::Empty => {
                return BatchStatus::Drained;
            },
            TryRead::Disconnected => {
                return BatchStatus::SourceClosed;
            },
        }
    }
}

} // verus!
