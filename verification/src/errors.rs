//! Producer-side errors, and the verified mapping from the queue core's own
//! error types onto them.
//!
//! The taxonomy is small: an abnormal transport failure (`Io`), a peer that
//! is permanently gone (`Disconnected`), and — for the non-blocking bounded
//! send only — a full queue (`Full`). `Full` and `Disconnected` on a
//! non-blocking send carry the rejected value back so it is not lost; the
//! consumer never sees an error at all, since an empty queue is a suspend
//! and a disconnect is the end of the sequence.

use vstd::prelude::*;

verus! {

/// Why an enqueue through [`crate::Sender`] or [`crate::SyncSender`] failed.
#[derive(Debug)]
pub enum SendError {
    /// The underlying transport failed abnormally; rare to impossible for a
    /// purely in-memory queue, but surfaced rather than swallowed.
    Io(std::io::Error),
    /// The receiving half was dropped; no value can be delivered any more.
    Disconnected,
}

/// Why a non-blocking enqueue through [`crate::SyncSender::try_send`]
/// failed. `Full` and `Disconnected` return the rejected value.
#[derive(Debug)]
pub enum TrySendError<T> {
    /// The underlying transport failed abnormally.
    Io(std::io::Error),
    /// The bounded queue already holds its capacity in unconsumed values.
    Full(T),
    /// The receiving half was dropped.
    Disconnected(T),
}

impl SendError {
    /// Folds the queue core's send failure into the channel's own error:
    /// the transport error is passed through, a disconnect is reported
    /// without the value (a blocking send has no use for it).
    pub fn from_queue<T>(e: mio::channel::SendError<T>) -> (r: SendError)
        ensures
            (e matches mio::channel::SendError::Io(io) ==> r == SendError::Io(io)),
            (e matches mio::channel::SendError::Disconnected(_) ==> r == SendError::Disconnected),
    {
        match e {
            mio::channel::SendError::Io(io) => SendError::Io(io),
            mio::channel::SendError::Disconnected(_) => SendError::Disconnected,
        }
    }
}

impl<T> TrySendError<T> {
    /// Maps the queue core's non-blocking send failure onto the channel's
    /// own error, variant for variant, keeping the rejected value.
    pub fn from_queue(e: mio::channel::TrySendError<T>) -> (r: TrySendError<T>)
        ensures
            (e matches mio::channel::TrySendError::Io(io) ==> r == TrySendError::<T>::Io(io)),
            (e matches mio::channel::TrySendError::Full(v) ==> r == TrySendError::Full(v)),
            (e matches mio::channel::TrySendError::Disconnected(v) ==> r
                == TrySendError::Disconnected(v)),
    {
        match e {
            mio::channel::TrySendError::Io(io) => TrySendError::Io(io),
            mio::channel::TrySendError::Full(v) => TrySendError::Full(v),
            mio::channel::TrySendError::Disconnected(v) => TrySendError::Disconnected(v),
        }
    }
}

} // verus!
