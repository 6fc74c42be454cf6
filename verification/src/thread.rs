//! The state of a running WASI thread: whether it has finished, and the signals waiting
//! for it. The embedder shares one state between the clones of a thread handle behind a
//! lock, and wakes joiners when the thread is marked finished.

use vstd::prelude::*;

use crate::wasi_types::WasiSignal;

verus! {

/// The waiting signals after `s` is raised: it is added at the end unless it already waits.
pub open spec fn after_signal(pending: Seq<WasiSignal>, s: WasiSignal) -> Seq<WasiSignal> {
    if pending.contains(s) {
        pending
    } else {
        pending.push(s)
    }
}

/// The state of a running thread.
#[derive(Debug)]
pub struct WasiThread {
    finished: bool,
    signals: Vec<WasiSignal>,
}

impl WasiThread {
    /// Whether the thread has finished.
    pub closed spec fn spec_finished(&self) -> bool {
        self.finished
    }

    /// The signals waiting to be processed, oldest first.
    pub closed spec fn spec_signals(&self) -> Seq<WasiSignal> {
        self.signals@
    }

    /// No signal waits twice.
    #[verifier::type_invariant]
    closed spec fn no_signal_twice(self) -> bool {
        self.signals@.no_duplicates()
    }

    /// A running thread with no signals waiting.
    pub fn new() -> (r: Self)
        ensures
            !r.spec_finished(),
            r.spec_signals() == Seq::<WasiSignal>::empty(),
            r.spec_signals().no_duplicates(),
    {
        WasiThread { finished: false, signals: Vec::new() }
    }

    /// Marks the thread as finished.
    pub fn mark_finished(&mut self)
        ensures
            final(self).spec_finished(),
            final(self).spec_signals() == old(self).spec_signals(),
            final(self).spec_signals().no_duplicates(),
    {
        proof {
            use_type_invariant(&*self);
        }
        self.finished = true;
    }

    /// Whether the thread has finished.
    pub fn is_finished(&self) -> (r: bool)
        ensures
            r == self.spec_finished(),
    {
        self.finished
    }

    /// Adds a signal for this thread to process, unless it is already waiting.
    pub fn signal(&mut self, signal: WasiSignal)
        ensures
            final(self).spec_signals().no_duplicates(),
            final(self).spec_finished() == old(self).spec_finished(),
            final(self).spec_signals() == after_signal(old(self).spec_signals(), signal),
    {
        proof {
            use_type_invariant(&*self);
        }
        let mut i: usize = 0;
        while i < self.signals.len()
            invariant
                i <= self.signals@.len(),
                forall|j: int| 0 <= j < i ==> self.signals@[j] != signal,
                *self == *old(self),
                self.signals@.no_duplicates(),
            decreases self.signals.len() - i,
        {
            if self.signals[i] == signal {
                assert(self.signals@.contains(signal));
                return;
            }
            i = i + 1;
        }
        assert(!self.signals@.contains(signal));
        let ghost before = self.signals@;
        let mut signals: Vec<WasiSignal> = Vec::new();
        core::mem::swap(&mut signals, &mut self.signals);
        signals.push(signal);
        assert forall|a: int, b: int| 0 <= a < b < signals@.len() implies signals@[a] != signals@[b] by {
            if b == signals@.len() - 1 {
                assert(before[a] == signals@[a]);
            } else {
                assert(before[a] == signals@[a] && before[b] == signals@[b]);
            }
        }
        core::mem::swap(&mut signals, &mut self.signals);
    }

    /// Returns all the signals that are waiting to be processed, oldest first, and forgets them.
    pub fn pop_signals(&mut self) -> (r: Vec<WasiSignal>)
        ensures
            r@ == old(self).spec_signals(),
            final(self).spec_signals() == Seq::<WasiSignal>::empty(),
            final(self).spec_finished() == old(self).spec_finished(),
            final(self).spec_signals().no_duplicates(),
    {
        let mut r: Vec<WasiSignal> = Vec::new();
        core::mem::swap(&mut r, &mut self.signals);
        assert(self.signals@ =~= Seq::<WasiSignal>::empty());
        r
    }
}

impl Default for WasiThread {
    fn default() -> (r: Self)
        ensures
            !r.spec_finished(),
            r.spec_signals() == Seq::<WasiSignal>::empty(),
    {
        WasiThread::new()
    }
}

/// Raising a signal twice has the effect of raising it once; afterwards it waits exactly
/// once, and no signal waits twice.
pub proof fn lemma_signal_idempotent(pending: Seq<WasiSignal>, s: WasiSignal)
    requires
        pending.no_duplicates(),
    ensures
        after_signal(after_signal(pending, s), s) == after_signal(pending, s),
        after_signal(pending, s).contains(s),
        after_signal(pending, s).no_duplicates(),
{
    let once = after_signal(pending, s);
    if !pending.contains(s) {
        assert(once[once.len() - 1] == s);
        assert forall|i: int, j: int| 0 <= i < j < once.len() implies once[i] != once[j] by {
            if j == once.len() - 1 {
                assert(pending[i] == once[i]);
            }
        }
    }
}

} // verus!
