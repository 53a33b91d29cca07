//! An abstract view of one whole channel, and proofs of the protocol's
//! guarantees over it.
//!
//! The running channel is spread over threads: the queue core holds the
//! values, producer handles come and go, the loop delivers wakeups, and the
//! consumer holds the readiness flag. No single party can observe all of it
//! at once, so the guarantees are stated here over a [`ChannelModel`] that
//! collects that joint state, with one transition per operation:
//!
//! - [`send_step`] / [`try_send_step`] are an enqueue as the queue core's
//!   interface describes it, including the readiness edge that an enqueue
//!   onto an empty queue raises (the loop's delivery of that edge to
//!   [`crate::Receiver::on_wakeup`] is folded into the same step);
//! - [`poll_step`] is the consumer's produce-next-item transition — its
//!   readiness-flag and end-of-sequence component is exactly the verified
//!   contract of [`crate::Receiver::poll`], and its queue component is the
//!   trusted dequeue interface of [`crate::queue`];
//! - [`drop_sender_step`] / [`drop_receiver_step`] are a handle going away,
//!   with the disconnect edge the queue core raises for the last one.
//!
//! The proof functions at the end are the channel's laws: per-producer FIFO
//! delivery, exactly-once delivery under interleaving, end-of-sequence after
//! the producers are gone, disconnect errors after the receiver is gone,
//! backpressure on the bounded variant, no missed wakeups, and idempotent
//! suspension.

use vstd::prelude::*;

use crate::channel::PollOutcome;
use crate::errors::{SendError, TrySendError};
use crate::readiness::ReadyState;

verus! {

/// Everything the distributed parts of one channel jointly determine.
#[verifier::ext_equal]
pub struct ChannelModel<T> {
    /// The values enqueued and not yet dequeued, oldest first.
    pub queue: Seq<T>,
    /// How many producer handles (the first and every clone) are still live.
    pub senders: nat,
    /// Whether the receiver is still live.
    pub receiver_live: bool,
    /// `Some(c)`: bounded to `c` unconsumed values; `None`: unbounded.
    pub capacity: Option<nat>,
    /// The consumer's readiness flag.
    pub phase: ReadyState,
    /// Whether the consumer has observed the end of the sequence.
    pub done: bool,
}

/// Whether a bounded channel still has room for one more value.
pub open spec fn has_capacity<T>(m: ChannelModel<T>) -> bool {
    match m.capacity {
        Option::None => true,
        Option::Some(c) => m.queue.len() < c,
    }
}

/// A channel state that respects its own bound: a bounded channel never
/// holds more unconsumed values than its capacity.
pub open spec fn wf<T>(m: ChannelModel<T>) -> bool {
    match m.capacity {
        Option::None => true,
        Option::Some(c) => m.queue.len() <= c,
    }
}

/// An enqueue that has been accepted by the queue core: the value goes to
/// the back, and if the queue was empty the readiness edge (delivered by
/// the loop) flips the consumer's flag back to `MayHaveData`.
pub open spec fn enqueue<T>(m: ChannelModel<T>, v: T) -> ChannelModel<T> {
    ChannelModel {
        queue: m.queue.push(v),
        phase: if m.queue.len() == 0 {
            ReadyState::MayHaveData
        } else {
            m.phase
        },
        ..m
    }
}

/// An unbounded producer's send: never blocks, fails only once the
/// receiver is gone.
pub open spec fn send_step<T>(m: ChannelModel<T>, v: T) -> (ChannelModel<T>, Result<
    (),
    SendError,
>) {
    if !m.receiver_live {
        (m, Result::Err(SendError::Disconnected))
    } else {
        (enqueue(m, v), Result::Ok(()))
    }
}

/// A bounded producer's non-blocking send: a value rejected for a gone
/// receiver or a full queue comes back to the caller unchanged.
pub open spec fn try_send_step<T>(m: ChannelModel<T>, v: T) -> (ChannelModel<T>, Result<
    (),
    TrySendError<T>,
>) {
    if !m.receiver_live {
        (m, Result::Err(TrySendError::Disconnected(v)))
    } else if !has_capacity(m) {
        (m, Result::Err(TrySendError::Full(v)))
    } else {
        (enqueue(m, v), Result::Ok(()))
    }
}

/// The consumer's produce-next-item transition of the poll state machine:
/// suspended consumers stay suspended and do not consult the queue; a
/// non-empty queue yields its oldest value; an empty queue whose producers
/// are all gone ends the sequence; an empty queue with producers remaining
/// re-arms interest and suspends.
pub open spec fn poll_step<T>(m: ChannelModel<T>) -> (ChannelModel<T>, PollOutcome<T>) {
    if m.done {
        (m, PollOutcome::Ended)
    } else if m.phase == ReadyState::Waiting {
        (m, PollOutcome::NotReady)
    } else if m.queue.len() > 0 {
        (ChannelModel { queue: m.queue.drop_first(), ..m }, PollOutcome::Item(m.queue[0]))
    } else if m.senders == 0 {
        (ChannelModel { done: true, ..m }, PollOutcome::Ended)
    } else {
        (ChannelModel { phase: ReadyState::Waiting, ..m }, PollOutcome::NotReady)
    }
}

/// A wakeup delivered by the loop: the queue may have data again.
pub open spec fn wakeup_step<T>(m: ChannelModel<T>) -> ChannelModel<T> {
    ChannelModel { phase: ReadyState::MayHaveData, ..m }
}

/// One producer handle dropped. The last one closes the producer side, and
/// the queue core raises a readiness edge for the disconnect so that a
/// suspended consumer comes back to observe the end.
pub open spec fn drop_sender_step<T>(m: ChannelModel<T>) -> ChannelModel<T>
    recommends
        m.senders > 0,
{
    if m.senders <= 1 {
        ChannelModel { senders: 0 as nat, phase: ReadyState::MayHaveData, ..m }
    } else {
        ChannelModel { senders: (m.senders - 1) as nat, ..m }
    }
}

/// The receiver dropped: every later send fails with `Disconnected`.
pub open spec fn drop_receiver_step<T>(m: ChannelModel<T>) -> ChannelModel<T> {
    ChannelModel { receiver_live: false, ..m }
}

/// The values an undisturbed consumer observes by polling repeatedly until
/// a poll yields no item: the sequence the channel delivers from this state.
pub open spec fn drain<T>(m: ChannelModel<T>) -> Seq<T>
    decreases m.queue.len(),
{
    if m.done || m.phase == ReadyState::Waiting || m.queue.len() == 0 {
        Seq::empty()
    } else {
        seq![m.queue[0]] + drain(poll_step(m).0)
    }
}

/// A producer sending the values of `vs`, in order, one send per value.
pub open spec fn send_all<T>(m: ChannelModel<T>, vs: Seq<T>) -> ChannelModel<T>
    decreases vs.len(),
{
    if vs.len() == 0 {
        m
    } else {
        send_all(send_step(m, vs[0]).0, vs.drop_first())
    }
}

/// The capacity bound is an invariant: every operation keeps a bounded
/// channel within its bound. The unbounded producer's send is only ever
/// paired with an unbounded queue, where there is no bound to respect.
pub proof fn lemma_capacity_invariant<T>(m: ChannelModel<T>, v: T)
    requires
        wf(m),
    ensures
        m.capacity is None ==> wf(send_step(m, v).0),
        wf(try_send_step(m, v).0),
        wf(poll_step(m).0),
        wf(wakeup_step(m)),
        wf(drop_sender_step(m)),
        wf(drop_receiver_step(m)),
{
}

/// While the receiver is live, sends only append: after sending `vs` the
/// queue holds the old values followed by `vs`, nothing else has moved, and
/// a consumer that was (or became) ready stays ready.
pub proof fn lemma_send_all_appends<T>(m: ChannelModel<T>, vs: Seq<T>)
    requires
        m.receiver_live,
    ensures
        send_all(m, vs).queue == m.queue + vs,
        send_all(m, vs).senders == m.senders,
        send_all(m, vs).receiver_live,
        send_all(m, vs).capacity == m.capacity,
        send_all(m, vs).done == m.done,
        m.queue.len() == 0 && vs.len() > 0 ==> send_all(m, vs).phase == ReadyState::MayHaveData,
        m.phase == ReadyState::MayHaveData ==> send_all(m, vs).phase == ReadyState::MayHaveData,
    decreases vs.len(),
{
    if vs.len() == 0 {
        assert(send_all(m, vs).queue =~= m.queue + vs);
    } else {
        let m1 = send_step(m, vs[0]).0;
        lemma_send_all_appends(m1, vs.drop_first());
        assert(m1.queue =~= m.queue.push(vs[0]));
        assert(m.queue + vs =~= m.queue.push(vs[0]) + vs.drop_first());
    }
}

/// A ready consumer drains exactly what the queue holds, oldest first.
pub proof fn lemma_drain_observes_queue<T>(m: ChannelModel<T>)
    requires
        !m.done,
        m.phase == ReadyState::MayHaveData,
    ensures
        drain(m) == m.queue,
    decreases m.queue.len(),
{
    if m.queue.len() == 0 {
        assert(drain(m) =~= m.queue);
    } else {
        let m1 = poll_step(m).0;
        lemma_drain_observes_queue(m1);
        assert(drain(m) =~= seq![m.queue[0]] + m.queue.drop_first());
        assert(m.queue =~= seq![m.queue[0]] + m.queue.drop_first());
    }
}

/// FIFO per producer: from an empty channel whose receiver is live, a
/// producer that sends `v1, v2, …, vn` in that order is observed by the
/// consumer as exactly `v1, v2, …, vn`, in that order.
pub proof fn lemma_fifo_per_producer<T>(m: ChannelModel<T>, vs: Seq<T>)
    requires
        m.receiver_live,
        !m.done,
        m.queue.len() == 0,
    ensures
        drain(send_all(m, vs)) == vs,
{
    lemma_send_all_appends(m, vs);
    let n = send_all(m, vs);
    if vs.len() == 0 {
        assert(drain(n) =~= vs);
    } else {
        lemma_drain_observes_queue(n);
        assert(drain(n) =~= vs);
    }
}

/// The consumer's own component of the model. The model's poll transition
/// moves it exactly as the verified contract of [`crate::Receiver::poll`]
/// says the receiver moves, clause for clause; the lemma below proves that
/// agreement, tying the running receiver to this model.
pub open spec fn consumer_of<T>(m: ChannelModel<T>) -> crate::channel::ConsumerState {
    crate::channel::ConsumerState { phase: m.phase, done: m.done }
}

/// Every clause of [`crate::Receiver::poll`]'s contract, restated of
/// [`poll_step`] and proved: the model and the verified receiver agree on
/// how a poll moves the consumer's state.
pub proof fn lemma_poll_agrees_with_receiver_contract<T>(m: ChannelModel<T>)
    ensures
        m.done ==> (poll_step(m).1 matches PollOutcome::Ended) && consumer_of(poll_step(m).0)
            == consumer_of(m),
        !m.done && m.phase == ReadyState::Waiting ==> (poll_step(m).1 matches
            PollOutcome::NotReady) && consumer_of(poll_step(m).0) == consumer_of(m),
        poll_step(m).1 matches PollOutcome::Item(_) ==> m.phase == ReadyState::MayHaveData
            && !m.done && consumer_of(poll_step(m).0) == consumer_of(m),
        poll_step(m).1 matches PollOutcome::Ended ==> poll_step(m).0.done,
        poll_step(m).1 matches PollOutcome::NotReady ==> poll_step(m).0.phase
            == ReadyState::Waiting && !poll_step(m).0.done && !m.done,
        poll_step(m).0.done == (m.done || poll_step(m).1 matches PollOutcome::Ended),
        !(poll_step(m).1 matches PollOutcome::NotReady) ==> poll_step(m).0.phase == m.phase,
{
}

/// Exactly-once delivery under interleaving: however the sends of `k`
/// cloned handles interleave, the queue core serialises them into one
/// combined arrival order `vs`; the consumer observes precisely that
/// sequence, so every sent value arrives exactly once — none lost, none
/// duplicated.
pub proof fn lemma_exactly_once<T>(m: ChannelModel<T>, vs: Seq<T>)
    requires
        m.receiver_live,
        !m.done,
        m.queue.len() == 0,
    ensures
        drain(send_all(m, vs)).to_multiset() == vs.to_multiset(),
{
    lemma_fifo_per_producer(m, vs);
}

/// Interleaving keeps each producer's order: tag every value with its
/// producer; whatever the combined arrival order, the subsequence observed
/// from any one producer is that producer's own send order.
pub proof fn lemma_interleaving_keeps_producer_order<T>(
    m: ChannelModel<(int, T)>,
    vs: Seq<(int, T)>,
    p: int,
)
    requires
        m.receiver_live,
        !m.done,
        m.queue.len() == 0,
    ensures
        drain(send_all(m, vs)).filter(|e: (int, T)| e.0 == p) == vs.filter(
            |e: (int, T)| e.0 == p,
        ),
{
    lemma_fifo_per_producer(m, vs);
}

/// The consumer's state once it has drained every value it can reach
/// without suspending.
pub open spec fn after_drain<T>(m: ChannelModel<T>) -> ChannelModel<T>
    decreases m.queue.len(),
{
    if m.done || m.phase == ReadyState::Waiting || m.queue.len() == 0 {
        m
    } else {
        after_drain(poll_step(m).0)
    }
}

/// Disconnect on drop, producer side: dropping the last producer handle
/// raises the disconnect edge, so even a suspended consumer comes back;
/// every value still queued is drained, in order, and the poll after the
/// last one yields the end of the sequence — not `NotReady` forever.
pub proof fn lemma_end_after_producers_gone<T>(m: ChannelModel<T>)
    requires
        m.senders == 1,
        !m.done,
    ensures
        drain(drop_sender_step(m)) == m.queue,
        poll_step(after_drain(drop_sender_step(m))).1 == PollOutcome::<T>::Ended,
        poll_step(after_drain(drop_sender_step(m))).0.done,
{
    lemma_drain_observes_queue(drop_sender_step(m));
    lemma_after_drain_end(drop_sender_step(m));
}

/// Once the producers are gone, draining empties the queue and the next
/// poll observes the end.
proof fn lemma_after_drain_end<T>(m: ChannelModel<T>)
    requires
        !m.done,
        m.phase == ReadyState::MayHaveData,
        m.senders == 0,
    ensures
        after_drain(m).queue.len() == 0,
        poll_step(after_drain(m)).1 == PollOutcome::<T>::Ended,
        poll_step(after_drain(m)).0.done,
    decreases m.queue.len(),
{
    if m.queue.len() > 0 {
        lemma_after_drain_end(poll_step(m).0);
    }
}

/// Disconnect on drop, consumer side: after the receiver is dropped, a
/// send fails with `Disconnected`, a non-blocking bounded send returns the
/// rejected value inside `Disconnected`, and neither changes the channel.
pub proof fn lemma_send_after_receiver_gone<T>(m: ChannelModel<T>, v: T)
    ensures
        send_step(drop_receiver_step(m), v).1 == Result::<(), SendError>::Err(
            SendError::Disconnected,
        ),
        send_step(drop_receiver_step(m), v).0 == drop_receiver_step(m),
        try_send_step(drop_receiver_step(m), v).1 == Result::<(), TrySendError<T>>::Err(
            TrySendError::Disconnected(v),
        ),
        try_send_step(drop_receiver_step(m), v).0 == drop_receiver_step(m),
{
}

/// Backpressure: a bounded channel holding its capacity `c > 0` in
/// unconsumed values rejects a non-blocking send with `Full`, handing the
/// value back and changing nothing — and a blocking send would have to
/// wait, since there is no room. After the consumer dequeues one item there
/// is room again, and the same send is accepted.
pub proof fn lemma_backpressure<T>(m: ChannelModel<T>, v: T, c: nat)
    requires
        m.capacity == Option::Some(c),
        m.queue.len() == c,
        c > 0,
        m.receiver_live,
        !m.done,
        m.phase == ReadyState::MayHaveData,
    ensures
        !has_capacity(m),
        try_send_step(m, v).1 == Result::<(), TrySendError<T>>::Err(TrySendError::Full(v)),
        try_send_step(m, v).0 == m,
        poll_step(m).1 == PollOutcome::<T>::Item(m.queue[0]),
        has_capacity(poll_step(m).0),
        try_send_step(poll_step(m).0, v).1 == Result::<(), TrySendError<T>>::Ok(()),
{
}

/// No missed wakeup: a poll that suspends, followed by a send from another
/// thread, is enough — the enqueue onto the empty queue raises the
/// readiness edge, and the next poll yields the sent value. No outside
/// nudge is needed.
pub proof fn lemma_no_missed_wakeup<T>(m: ChannelModel<T>, v: T)
    requires
        m.queue.len() == 0,
        !m.done,
        m.senders > 0,
        m.receiver_live,
    ensures
        poll_step(m).1 == PollOutcome::<T>::NotReady,
        send_step(poll_step(m).0, v).1 == Result::<(), SendError>::Ok(()),
        poll_step(send_step(poll_step(m).0, v).0).1 == PollOutcome::<T>::Item(v),
{
}

/// Idempotent suspension: while the queue is genuinely empty and producers
/// remain, a poll suspends and its only effect is the one re-arm of
/// interest; polling again returns `NotReady` and changes nothing at all.
pub proof fn lemma_idempotent_suspend<T>(m: ChannelModel<T>)
    requires
        m.queue.len() == 0,
        !m.done,
        m.senders > 0,
    ensures
        poll_step(m).1 == PollOutcome::<T>::NotReady,
        poll_step(m).0 == (ChannelModel { phase: ReadyState::Waiting, ..m }),
        poll_step(poll_step(m).0).0 == poll_step(m).0,
        poll_step(poll_step(m).0).1 == PollOutcome::<T>::NotReady,
{
    assert(poll_step(m).0 =~= ChannelModel { phase: ReadyState::Waiting, ..m });
}

} // verus!

