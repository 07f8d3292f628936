//! The wake signal: a single-slot, coalescing notification from the watcher
//! to the status loop.
//!
//! The slot holds at most one pending wake. Raising it never blocks and is
//! idempotent while a wake is pending; waiting consumes the pending wake.

use vstd::prelude::*;

verus! {

/// The slot of the wake channel.
#[derive(Clone, Copy, Debug, PartialEq, Eq, Structural)]
pub struct WakeSignal {
    /// A raise has occurred since the last wait returned.
    pub pending: bool,
}

impl WakeSignal {
    /// The signal after one raise.
    pub open spec fn raised(self) -> WakeSignal {
        WakeSignal { pending: true }
    }

    /// The signal after `n` raises in a row.
    pub open spec fn raised_times(self, n: nat) -> WakeSignal
        decreases n,
    {
        if n == 0 {
            self
        } else {
            self.raised().raised_times((n - 1) as nat)
        }
    }

    /// A wait on this signal returns at once, without suspending.
    pub open spec fn wait_returns(self) -> bool {
        self.pending
    }

    /// The signal after a wait has returned.
    pub open spec fn waited(self) -> WakeSignal {
        WakeSignal { pending: false }
    }

    /// A signal with nothing pending.
    pub fn new() -> (signal: WakeSignal)
        ensures
            !signal.pending,
    {
        WakeSignal { pending: false }
    }

    /// Raises the signal. Raising a signal that is already pending changes
    /// nothing.
    pub fn raise(&mut self)
        ensures
            *final(self) == old(self).raised(),
            final(self).wait_returns(),
    {
        self.pending = true;
    }

    /// Returns whether a wake is pending.
    pub fn is_pending(&self) -> (pending: bool)
        ensures
            pending == self.pending,
    {
        self.pending
    }

    /// Begins a wait. Returns `true`, and clears the slot, when a raise has
    /// occurred since the last wait returned: the wait is over at once.
    /// Returns `false` when nothing is pending: the waiter suspends until
    /// the next raise, and the slot stays empty.
    pub fn try_wait(&mut self) -> (returned: bool)
        ensures
            returned == old(self).wait_returns(),
            *final(self) == old(self).waited(),
            !final(self).wait_returns(),
    {
        let returned = self.pending;
        self.pending = false;
        returned
    }
}

/// Coalescing: any number of raises, at least one, leaves the signal as a
/// single raise does. The wait that follows returns without suspending, and
/// it returns once: the wait after it finds nothing pending.
pub proof fn lemma_raises_coalesce(signal: WakeSignal, n: nat)
    requires
        n >= 1,
    ensures
        signal.raised_times(n) == signal.raised(),
        signal.raised_times(n).wait_returns(),
        !signal.raised_times(n).waited().wait_returns(),
    decreases n,
{
    if n > 1 {
        lemma_raises_coalesce(signal.raised(), (n - 1) as nat);
    } else {
        assert(signal.raised().raised_times(0) == signal.raised());
    }
}

/// No lost wake: once raised, the signal stays pending until a wait consumes
/// it, whatever else is raised in between; nothing but a wait clears it.
pub proof fn lemma_no_lost_wake(signal: WakeSignal, later_raises: nat)
    ensures
        signal.raised().raised_times(later_raises).wait_returns(),
    decreases later_raises,
{
    if later_raises > 0 {
        lemma_no_lost_wake(signal.raised(), (later_raises - 1) as nat);
    }
}

} // verus!
