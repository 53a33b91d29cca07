//! The thread-safe queue core, taken on trust at its interface.
//!
//! The channel is built over the [`mio`] channel: an unbounded or bounded
//! multi-producer single-consumer queue whose receiving half doubles as a
//! readiness source for an event loop. Its behaviour is cross-thread and so
//! outside what this crate proves; the declarations here state only what the
//! queue's own source shows of every outcome — in particular that a rejected
//! value travels back to the caller — and the verified code above them does
//! the rest.

use vstd::prelude::*;

use mio::channel::channel as new_queue;
use mio::channel::sync_channel as new_bounded_queue;
use mio::channel::Receiver as QueueReceiver;
use mio::channel::SendError as QueueSendError;
use mio::channel::Sender as QueueSender;
use mio::channel::SyncSender as QueueSyncSender;
use mio::channel::TrySendError as QueueTrySendError;
use std::sync::mpsc::TryRecvError;

verus! {

#[verifier::external_type_specification]
#[verifier::external_body]
pub struct ExIoError(std::io::Error);

#[verifier::external_type_specification]
#[verifier::external_body]
#[verifier::reject_recursive_types(T)]
pub struct ExQueueSender<T>(QueueSender<T>);

#[verifier::external_type_specification]
#[verifier::external_body]
#[verifier::reject_recursive_types(T)]
pub struct ExQueueSyncSender<T>(QueueSyncSender<T>);

#[verifier::external_type_specification]
#[verifier::external_body]
#[verifier::reject_recursive_types(T)]
pub struct ExQueueReceiver<T>(QueueReceiver<T>);

#[verifier::external_type_specification]
#[verifier::reject_recursive_types(T)]
pub struct ExQueueSendError<T>(QueueSendError<T>);

#[verifier::external_type_specification]
#[verifier::reject_recursive_types(T)]
pub struct ExQueueTrySendError<T>(QueueTrySendError<T>);

#[verifier::external_type_specification]
pub struct ExTryRecvError(TryRecvError);

/// Relies on `mio::channel::channel`: creates a connected unbounded queue,
/// one producer handle and one consumer handle.
pub assume_specification<T>[ new_queue::<T> ]() -> (r: (QueueSender<T>, QueueReceiver<T>));

/// Relies on `mio::channel::sync_channel`: creates a connected bounded
/// queue of the given capacity, one producer handle and one consumer handle.
pub assume_specification<T>[ new_bounded_queue::<T> ](bound: usize) -> (r: (
    QueueSyncSender<T>,
    QueueReceiver<T>,
));

/// Relies on `mio::channel::Sender::send`: enqueues without blocking; on a
/// queue whose consumer is gone it hands the rejected value back inside
/// `Disconnected`.
pub assume_specification<T>[ QueueSender::<T>::send ](tx: &QueueSender<T>, t: T) -> (r: Result<
    (),
    QueueSendError<T>,
>)
    ensures
        (r matches Err(QueueSendError::Disconnected(u)) ==> u == t),
;

/// Relies on `mio::channel::SyncSender::send`: blocks the calling thread —
/// never the loop — until the bounded queue has room, then enqueues; on a
/// queue whose consumer is gone it hands the rejected value back inside
/// `Disconnected`.
pub assume_specification<T>[ QueueSyncSender::<T>::send ](tx: &QueueSyncSender<T>, t: T) -> (r:
    Result<(), QueueSendError<T>>)
    ensures
        (r matches Err(QueueSendError::Disconnected(u)) ==> u == t),
;

/// Relies on `mio::channel::SyncSender::try_send`: enqueues without
/// blocking; a value rejected because the queue is full or the consumer is
/// gone travels back to the caller inside `Full` or `Disconnected`.
pub assume_specification<T>[ QueueSyncSender::<T>::try_send ](tx: &QueueSyncSender<T>, t: T) -> (r:
    Result<(), QueueTrySendError<T>>)
    ensures
        (r matches Err(QueueTrySendError::Full(u)) ==> u == t),
        (r matches Err(QueueTrySendError::Disconnected(u)) ==> u == t),
;

/// Relies on `mio::channel::Receiver::try_recv`: dequeues without blocking;
/// `Empty` and `Disconnected` are told apart, and which of the three
/// outcomes occurs depends on the other threads, so nothing more is claimed.
pub assume_specification<T>[ QueueReceiver::<T>::try_recv ](rx: &QueueReceiver<T>) -> (r: Result<
    T,
    TryRecvError,
>);

/// Relies on `Clone` for `mio::channel::Sender`: the clone is a second
/// producer handle feeding the same queue.
#[verifier::external_body]
pub(crate) fn clone_sender<T>(tx: &QueueSender<T>) -> QueueSender<T> {
    tx.clone()
}

/// Relies on `Clone` for `mio::channel::SyncSender`: the clone is a second
/// producer handle feeding the same queue.
#[verifier::external_body]
pub(crate) fn clone_sync_sender<T>(tx: &QueueSyncSender<T>) -> QueueSyncSender<T> {
    tx.clone()
}

} // verus!
