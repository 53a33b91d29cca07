//! An evented, multi-producer single-consumer channel.
//!
//! Producers on arbitrary threads enqueue values through cloneable
//! [`Sender`]/[`SyncSender`] handles; a single [`Receiver`], driven by a
//! cooperative event loop, observes them as a lazily produced sequence.
//! The receiver follows a two-phase, edge-triggered readiness protocol so
//! that an empty queue suspends the consumer instead of busy-polling, and a
//! later enqueue wakes it again without missed wakeups.
//!
//! The thread-safe queue itself is the [`mio`] channel, taken on trust at its
//! interface; everything layered on top of it here — the readiness bridge,
//! the poll state machine, and the error mapping — is verified. The
//! [`model`] module states the protocol's guarantees over an abstract view
//! of the whole channel and proves them.

pub mod channel;
pub mod errors;
pub mod model;
pub mod queue;
pub mod readiness;

pub use channel::{channel, sync_channel, ConsumerState, PollOutcome, Receiver, Sender, SyncSender};
pub use errors::{SendError, TrySendError};
pub use readiness::{Readiness, ReadyState};
