//! Checkpoints that a WebAssembly thread waits on until another side triggers them.
//!
//! The channel the trigger arrives on is driven by the caller; a checkpoint decides what
//! each step of waiting or polling means.

use vstd::prelude::*;

verus! {

/// The state of a checkpoint: whether it has been triggered, and whether its receiving end
/// is still held.
#[derive(Debug, Clone, Copy, PartialEq, Eq, Structural)]
pub struct WasmCheckpoint {
    triggered: bool,
    receiving: bool,
}

/// What waiting on a checkpoint calls for.
#[derive(Debug, Clone, Copy, PartialEq, Eq, Structural)]
pub enum CheckpointWait {
    /// The wait is over: `true` when the checkpoint was triggered, `false` when it was
    /// aborted.
    Done(bool),
    /// The receiving end has been taken: wait for a message on it and hand the outcome to
    /// [`WasmCheckpoint::wait_received`].
    Receive,
}

/// What polling a checkpoint calls for.
#[derive(Debug, Clone, Copy, PartialEq, Eq, Structural)]
pub enum CheckpointPoll {
    /// The checkpoint is passed.
    Ready,
    /// Poll the receiving end and hand the outcome to [`WasmCheckpoint::poll_received`].
    PollReceiver,
    /// Not yet.
    Pending,
}

impl WasmCheckpoint {
    /// Whether the checkpoint has been triggered.
    pub closed spec fn is_triggered(&self) -> bool {
        self.triggered
    }

    /// Whether the receiving end is still held.
    pub closed spec fn is_receiving(&self) -> bool {
        self.receiving
    }

    /// What starting a wait gives and leaves: a triggered checkpoint is passed at once; one
    /// whose receiving end is gone is aborted; otherwise the receiving end is taken to wait on.
    pub open spec fn wait_start_post(self, after: Self, r: CheckpointWait) -> bool {
        if self.is_triggered() {
            r == CheckpointWait::Done(true) && after == self
        } else if !self.is_receiving() {
            r == CheckpointWait::Done(false) && after == self
        } else {
            r == CheckpointWait::Receive && !after.is_triggered() && !after.is_receiving()
        }
    }

    /// What ending a wait gives and leaves: the outcome is whether a message arrived, and a
    /// message triggers the checkpoint.
    pub open spec fn wait_received_post(self, after: Self, received: bool, r: bool) -> bool {
        &&& r == received
        &&& after.is_triggered() == (self.is_triggered() || received)
        &&& after.is_receiving() == self.is_receiving()
    }

    /// What starting a poll gives and leaves: a triggered checkpoint is passed; one whose
    /// receiving end is gone is passed and counts as triggered; otherwise the receiving end is
    /// to be polled.
    pub open spec fn poll_start_post(self, after: Self, r: CheckpointPoll) -> bool {
        if self.is_triggered() {
            r == CheckpointPoll::Ready && after == self
        } else if !self.is_receiving() {
            r == CheckpointPoll::Ready && after.is_triggered() && !after.is_receiving()
        } else {
            r == CheckpointPoll::PollReceiver && after == self
        }
    }

    /// What ending a poll gives and leaves: a receiving end that yielded passes and triggers
    /// the checkpoint; otherwise it is not passed yet.
    pub open spec fn poll_received_post(self, after: Self, ready: bool, r: CheckpointPoll) -> bool {
        &&& ready ==> r == CheckpointPoll::Ready && after.is_triggered()
        &&& !ready ==> r == CheckpointPoll::Pending && after == self
        &&& after.is_receiving() == self.is_receiving()
    }

    /// A checkpoint that holds its receiving end and has not been triggered.
    pub fn new() -> (r: Self)
        ensures
            !r.is_triggered(),
            r.is_receiving(),
    {
        WasmCheckpoint { triggered: false, receiving: true }
    }

    /// Starts waiting: a triggered checkpoint is passed at once; one whose receiving end is
    /// gone is aborted; otherwise the receiving end is taken to wait on.
    pub fn wait_start(&mut self) -> (r: CheckpointWait)
        ensures
            old(self).wait_start_post(*final(self), r),
    {
        if self.triggered {
            return CheckpointWait::Done(true);
        }
        if !self.receiving {
            return CheckpointWait::Done(false);
        }
        self.receiving = false;
        CheckpointWait::Receive
    }

    /// Ends a wait: `received` tells whether a message arrived (rather than the sending end
    /// closing). A message triggers the checkpoint. The outcome of the wait is given back.
    pub fn wait_received(&mut self, received: bool) -> (r: bool)
        ensures
            old(self).wait_received_post(*final(self), received, r),
    {
        if received {
            self.triggered = true;
        }
        received
    }

    /// Starts a poll: a triggered checkpoint is passed; one whose receiving end is gone is
    /// passed too, and counts as triggered from then on; otherwise the receiving end is to be
    /// polled.
    pub fn poll_start(&mut self) -> (r: CheckpointPoll)
        ensures
            old(self).poll_start_post(*final(self), r),
    {
        if self.triggered {
            return CheckpointPoll::Ready;
        }
        if !self.receiving {
            self.triggered = true;
            return CheckpointPoll::Ready;
        }
        CheckpointPoll::PollReceiver
    }

    /// Ends a poll of the receiving end: `ready` tells whether it yielded (a message, or the
    /// sending end closing). That passes the checkpoint and triggers it.
    pub fn poll_received(&mut self, ready: bool) -> (r: CheckpointPoll)
        ensures
            old(self).poll_received_post(*final(self), ready, r),
    {
        if ready {
            self.triggered = true;
            CheckpointPoll::Ready
        } else {
            CheckpointPoll::Pending
        }
    }
}

/// Once a wait has seen the trigger, the checkpoint stays triggered: every later wait and
/// poll passes at once and changes nothing.
pub proof fn lemma_triggered_checkpoint_stays_passed(
    c0: WasmCheckpoint,
    c1: WasmCheckpoint,
    c2: WasmCheckpoint,
    c3: WasmCheckpoint,
    received: bool,
    w: CheckpointWait,
    p: CheckpointPoll,
)
    requires
        c0.wait_received_post(c1, true, received),
        c1.wait_start_post(c2, w),
        c2.poll_start_post(c3, p),
    ensures
        received,
        w == CheckpointWait::Done(true),
        p == CheckpointPoll::Ready,
        c3 == c1,
{
}

} // verus!
