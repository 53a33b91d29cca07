//! The channel facade: cloneable producer handles, the single consumer, and
//! the consumer's poll state machine.
//!
//! Producers enqueue straight into the queue core and never touch the event
//! loop. The consumer's [`Receiver::poll`] follows the two-phase readiness
//! protocol: while the bridge says [`ReadyState::Waiting`] it suspends
//! without consulting the queue at all; otherwise it attempts one
//! non-blocking dequeue, folds an empty result into a suspend plus re-arm,
//! and turns a disconnect into the permanent end of the sequence.

use vstd::prelude::*;

use crate::errors::{SendError, TrySendError};
use crate::queue::{clone_sender, clone_sync_sender};
use crate::readiness::{Readiness, ReadyState};

verus! {

/// One step of the lazy-sequence protocol: a value, a suspend, or the
/// permanent end.
pub enum PollOutcome<T> {
    /// A value arrived; the consumer stays eligible to poll again at once.
    Item(T),
    /// Nothing is pending right now; the consumer should yield to the loop
    /// and poll again after the next wakeup.
    NotReady,
    /// Every producer handle is gone and the queue has drained; no further
    /// poll will ever yield a value.
    Ended,
}

/// The transmission half of the unbounded channel.
///
/// Cloneable: every clone is a producer handle onto the same queue, and the
/// producer side counts as closed only once all clones are dropped.
#[verifier::reject_recursive_types(T)]
pub struct Sender<T> {
    tx: mio::channel::Sender<T>,
}

/// The transmission half of the bounded channel; enqueueing may block the
/// calling thread (never the loop) until capacity is available.
///
/// Cloneable in the same way as [`Sender`].
#[verifier::reject_recursive_types(T)]
pub struct SyncSender<T> {
    tx: mio::channel::SyncSender<T>,
}

/// What the consumer's own state determines about the next poll: the
/// readiness phase and whether the sequence has permanently ended.
pub struct ConsumerState {
    pub phase: ReadyState,
    pub done: bool,
}

/// The receiving half of a channel: sole consumer, not cloneable.
#[verifier::reject_recursive_types(T)]
pub struct Receiver<T> {
    rx: mio::channel::Receiver<T>,
    ready: Readiness,
    done: bool,
}

impl<T> View for Receiver<T> {
    type V = ConsumerState;

    closed spec fn view(&self) -> ConsumerState {
        ConsumerState { phase: self.ready@, done: self.done }
    }
}

/// Creates a connected, unbounded channel pair.
///
/// The receiver starts in [`ReadyState::MayHaveData`]: it has not yet
/// observed an empty queue, so its first poll goes to the queue directly.
pub fn channel<T>() -> (r: (Sender<T>, Receiver<T>))
    ensures
        r.1@.phase == ReadyState::MayHaveData,
        !r.1@.done,
{
    let (tx, rx) = mio::channel::channel();
    (Sender { tx }, Receiver { rx, ready: Readiness::new(), done: false })
}

/// Creates a connected, bounded channel pair of the given capacity.
///
/// The receiver starts exactly as in [`channel`].
pub fn sync_channel<T>(bound: usize) -> (r: (SyncSender<T>, Receiver<T>))
    ensures
        r.1@.phase == ReadyState::MayHaveData,
        !r.1@.done,
{
    let (tx, rx) = mio::channel::sync_channel(bound);
    (SyncSender { tx }, Receiver { rx, ready: Readiness::new(), done: false })
}

impl<T> Sender<T> {
    /// Enqueues a value for the receiver without ever blocking.
    ///
    /// Which outcome occurs depends on the receiver's liveness at enqueue
    /// time, so only the shape of each outcome is stated: success enqueues
    /// the value, `Disconnected` means the receiver is gone, `Io` surfaces
    /// an abnormal transport failure.
    pub fn send(&self, t: T) -> (r: Result<(), SendError>) {
        match self.tx.send(t) {
            Ok(()) => Ok(()),
            Err(e) => Err(SendError::from_queue(e)),
        }
    }
}

impl<T> Clone for Sender<T> {
    /// A second producer handle onto the same queue.
    fn clone(&self) -> (r: Sender<T>) {
        Sender { tx: clone_sender(&self.tx) }
    }
}

impl<T> SyncSender<T> {
    /// Enqueues a value, blocking the calling thread until the bounded
    /// queue has room or an error occurs. The loop thread is never blocked:
    /// producers run on their own threads.
    pub fn send(&self, t: T) -> (r: Result<(), SendError>) {
        match self.tx.send(t) {
            Ok(()) => Ok(()),
            Err(e) => Err(SendError::from_queue(e)),
        }
    }

    /// Enqueues a value without blocking; a value rejected because the
    /// queue is full or the receiver is gone comes back to the caller.
    pub fn try_send(&self, t: T) -> (r: Result<(), TrySendError<T>>)
        ensures
            (r matches Err(TrySendError::Full(u)) ==> u == t),
            (r matches Err(TrySendError::Disconnected(u)) ==> u == t),
    {
        match self.tx.try_send(t) {
            Ok(()) => Ok(()),
            Err(e) => Err(TrySendError::from_queue(e)),
        }
    }
}

impl<T> Clone for SyncSender<T> {
    /// A second producer handle onto the same queue.
    fn clone(&self) -> (r: SyncSender<T>) {
        SyncSender { tx: clone_sync_sender(&self.tx) }
    }
}

impl<T> Receiver<T> {
    /// Produces the next step of the lazy sequence without ever blocking.
    ///
    /// The contract pins everything the consumer's own state determines:
    /// once ended, the channel stays ended and untouched; while suspended,
    /// polling is idempotent and does not consult the queue; a dequeue that
    /// comes back empty re-arms interest and suspends; only a disconnect
    /// ends the sequence. Which of value, empty and disconnect the queue
    /// reports is the other threads' doing and left open.
    pub fn poll(&mut self) -> (r: PollOutcome<T>)
        ensures
            old(self)@.done ==> (r matches PollOutcome::Ended) && final(self)@ == old(self)@,
            !old(self)@.done && old(self)@.phase == ReadyState::Waiting ==> (r matches
                PollOutcome::NotReady) && final(self)@ == old(self)@,
            r matches PollOutcome::Item(_) ==> old(self)@.phase == ReadyState::MayHaveData
                && !old(self)@.done && final(self)@ == old(self)@,
            r matches PollOutcome::Ended ==> final(self)@.done,
            r matches PollOutcome::NotReady ==> final(self)@.phase == ReadyState::Waiting
                && !final(self)@.done && !old(self)@.done,
            final(self)@.done == (old(self)@.done || r matches PollOutcome::Ended),
            !(r matches PollOutcome::NotReady) ==> final(self)@.phase == old(self)@.phase,
    {
        if self.done {
            return PollOutcome::Ended;
        }
        if !self.ready.poll_readable() {
            return PollOutcome::NotReady;
        }
        let fetched = self.rx.try_recv();
        self.fold_dequeue(fetched)
    }

    /// Folds one observed dequeue outcome into the consumer's state, as the
    /// produce transition table prescribes — exactly, for each value the
    /// queue can hand back: a value is emitted as an item and the state is
    /// untouched; an empty read is never an error, it re-arms interest and
    /// suspends; a disconnect ends the sequence permanently.
    pub fn fold_dequeue(&mut self, fetched: Result<T, std::sync::mpsc::TryRecvError>) -> (r:
        PollOutcome<T>)
        ensures
            (fetched matches Ok(t) ==> r == PollOutcome::Item(t) && final(self)@ == old(self)@),
            (fetched matches Err(std::sync::mpsc::TryRecvError::Empty) ==> r == PollOutcome::<
                T,
            >::NotReady && final(self)@ == (ConsumerState {
                phase: ReadyState::Waiting,
                done: old(self)@.done,
            })),
            (fetched matches Err(std::sync::mpsc::TryRecvError::Disconnected) ==> r
                == PollOutcome::<T>::Ended && final(self)@ == (ConsumerState {
                phase: old(self)@.phase,
                done: true,
            })),
    {
        match fetched {
            Ok(t) => PollOutcome::Item(t),
            Err(std::sync::mpsc::TryRecvError::Empty) => {
                self.ready.notify_not_ready();
                PollOutcome::NotReady
            },
            Err(std::sync::mpsc::TryRecvError::Disconnected) => {
                self.done = true;
                PollOutcome::Ended
            },
        }
    }

    /// Called by the hosting loop when the readiness source signals
    /// activity: the next poll will consult the queue again.
    pub fn on_wakeup(&mut self)
        ensures
            final(self)@.phase == ReadyState::MayHaveData,
            final(self)@.done == old(self)@.done,
    {
        self.ready.on_wakeup();
    }

    /// Borrows the queue core's readiness source so the hosting loop can
    /// register it and later route its wakeups to [`Receiver::on_wakeup`].
    pub fn source(&self) -> &mio::channel::Receiver<T> {
        &self.rx
    }
}

} // verus!
