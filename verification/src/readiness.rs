//! The consumer side's readiness bridge.
//!
//! An edge-triggered loop delivers one wakeup per transition from "nothing to
//! read" to "something to read". The consumer must therefore keep a single
//! flag: either it may still have data to drain, or it has observed an empty
//! queue, re-armed its interest, and waits for the next edge. This module
//! holds that flag and its transitions; the [`crate::channel::Receiver`]
//! drives it from the poll state machine, and the hosting loop raises it
//! again on a wakeup.

use vstd::prelude::*;

verus! {

/// The two phases of the edge-triggered consumer protocol.
#[derive(Clone, Copy, PartialEq, Eq, Structural, Debug)]
pub enum ReadyState {
    /// A wakeup has been observed (or never yet consumed): the queue may
    /// hold data, so a dequeue attempt is worthwhile.
    MayHaveData,
    /// A dequeue came back empty; interest has been re-armed and the
    /// consumer waits for the next become-readable edge.
    Waiting,
}

/// The readiness flag of one receiver.
///
/// It starts in [`ReadyState::MayHaveData`]: until a dequeue has come back
/// empty, the consumer has no reason to believe the queue is empty, and a
/// spurious first attempt costs one non-blocking read.
pub struct Readiness {
    phase: ReadyState,
}

impl View for Readiness {
    type V = ReadyState;

    closed spec fn view(&self) -> ReadyState {
        self.phase
    }
}

impl Readiness {
    /// A fresh flag, optimistically assuming data may be present.
    pub fn new() -> (r: Readiness)
        ensures
            r@ == ReadyState::MayHaveData,
    {
        Readiness { phase: ReadyState::MayHaveData }
    }

    /// Non-blocking readiness check: `true` means a dequeue attempt is due,
    /// `false` means the consumer is suspended until the next edge.
    pub fn poll_readable(&self) -> (ready: bool)
        ensures
            ready == (self@ == ReadyState::MayHaveData),
    {
        match self.phase {
            ReadyState::MayHaveData => true,
            ReadyState::Waiting => false,
        }
    }

    /// Called exactly once after an observed-empty dequeue: go back to
    /// waiting for the next become-readable edge.
    pub fn notify_not_ready(&mut self)
        ensures
            final(self)@ == ReadyState::Waiting,
    {
        self.phase = ReadyState::Waiting;
    }

    /// Called by the hosting loop when the readiness source signals new
    /// activity: the queue may have data again.
    pub fn on_wakeup(&mut self)
        ensures
            final(self)@ == ReadyState::MayHaveData,
    {
        self.phase = ReadyState::MayHaveData;
    }
}

} // verus!
