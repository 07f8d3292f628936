//! The status loop: render, then wait for the next minute boundary or for a
//! wake, whichever comes first.
//!
//! The loop is a state machine. Its caller renders and displays when told
//! to, runs the timer, and reports what happened.

use vstd::prelude::*;
use crate::wake::WakeSignal;

verus! {

/// Seconds in a minute.
pub const MINUTE: u64 = 60;

/// Seconds from wall-clock second `second` to the top of the next minute.
pub open spec fn boundary_distance(second: u32) -> int {
    MINUTE - second
}

/// Returns the seconds left until the next minute boundary, between 1 and
/// 60, for a wall-clock second between 0 and 59.
pub fn seconds_to_boundary(second: u32) -> (remaining: u64)
    requires
        second < MINUTE,
    ensures
        remaining == boundary_distance(second),
        1 <= remaining <= MINUTE,
        (second + remaining) % (MINUTE as int) == 0,
{
    let second: u64 = second.into();
    MINUTE - second
}

/// How long a wait lasts whose timer is set for `timer` seconds and during
/// which a wake arrives, if at all, after `wake_at` seconds.
pub open spec fn wait_span(timer: u64, wake_at: Option<u64>) -> u64 {
    match wake_at {
        Some(at) => if at < timer {
            at
        } else {
            timer
        },
        None => timer,
    }
}

/// Returns the length of a wait: the first of the timer elapsing and the
/// wake arriving ends it. Without a wake it lasts as long as the timer.
pub fn wait_length(timer: u64, wake_at: Option<u64>) -> (span: u64)
    ensures
        span == wait_span(timer, wake_at),
        span <= timer,
        wake_at matches Some(at) ==> span <= at,
        span == timer || wake_at == Some(span),
{
    match wake_at {
        Some(at) => if at < timer {
            at
        } else {
            timer
        },
        None => timer,
    }
}

/// Where the status loop stands within a cycle.
#[derive(Clone, Copy, Debug, PartialEq, Eq, Structural)]
pub enum LoopPhase {
    /// Sampling, rendering and displaying.
    Rendering,
    /// Waiting on the timer and the wake signal.
    Waiting { remaining: u64 },
}

/// What the caller reports to the status loop.
#[derive(Clone, Copy, Debug, PartialEq, Eq, Structural)]
pub enum LoopEvent {
    /// The line was rendered and displayed at that wall-clock second.
    Rendered { second: u32 },
    /// The timer of the running wait has elapsed.
    TimerElapsed,
    /// The watcher raised the wake signal.
    Woken,
}

/// What the caller does next.
#[derive(Clone, Copy, Debug, PartialEq, Eq, Structural)]
pub enum LoopAction {
    /// Sample everything, render and display, then report `Rendered`.
    Render,
    /// Wait for the timer of that many seconds or for a wake, and report
    /// the first of the two.
    Wait(u64),
    /// Go on rendering: the render in progress has not been reported yet.
    Proceed,
}

/// The status loop between two events.
#[derive(Clone, Copy, Debug, PartialEq, Eq, Structural)]
pub struct StatusLoop {
    pub phase: LoopPhase,
    /// Wakes that arrived while the loop was not waiting.
    pub wake: WakeSignal,
}

impl StatusLoop {
    /// No wake is buffered while the loop waits: a waiting loop consumes a
    /// wake on arrival.
    pub open spec fn wf(self) -> bool {
        self.phase is Waiting ==> !self.wake.pending
    }

    /// The event can occur in the loop's present phase.
    pub open spec fn expects(self, event: LoopEvent) -> bool {
        match (self.phase, event) {
            (LoopPhase::Rendering, LoopEvent::Rendered { second }) => second < MINUTE,
            (LoopPhase::Waiting { .. }, LoopEvent::TimerElapsed) => true,
            (_, LoopEvent::Woken) => true,
            _ => false,
        }
    }

    /// The loop after an event that it expects.
    pub open spec fn after(self, event: LoopEvent) -> StatusLoop {
        match (self.phase, event) {
            (LoopPhase::Rendering, LoopEvent::Rendered { second }) => if self.wake.wait_returns() {
                StatusLoop { phase: LoopPhase::Rendering, wake: self.wake.waited() }
            } else {
                StatusLoop {
                    phase: LoopPhase::Waiting { remaining: boundary_distance(second) as u64 },
                    wake: self.wake,
                }
            },
            (LoopPhase::Rendering, LoopEvent::Woken) => StatusLoop {
                phase: LoopPhase::Rendering,
                wake: self.wake.raised(),
            },
            (LoopPhase::Waiting { .. }, LoopEvent::TimerElapsed) => StatusLoop {
                phase: LoopPhase::Rendering,
                wake: self.wake,
            },
            (LoopPhase::Waiting { .. }, LoopEvent::Woken) => StatusLoop {
                phase: LoopPhase::Rendering,
                wake: self.wake,
            },
            _ => self,
        }
    }

    /// What the loop asks of its caller after an event that it expects.
    pub open spec fn answer(self, event: LoopEvent) -> LoopAction {
        match (self.phase, event) {
            (LoopPhase::Rendering, LoopEvent::Rendered { second }) => if self.wake.wait_returns() {
                LoopAction::Render
            } else {
                LoopAction::Wait(boundary_distance(second) as u64)
            },
            (LoopPhase::Rendering, LoopEvent::Woken) => LoopAction::Proceed,
            _ => LoopAction::Render,
        }
    }

    /// The loop after `n` wakes in a row.
    pub open spec fn after_wakes(self, n: nat) -> StatusLoop
        decreases n,
    {
        if n == 0 {
            self
        } else {
            self.after(LoopEvent::Woken).after_wakes((n - 1) as nat)
        }
    }

    /// A loop about to render for the first time, with no wake buffered.
    pub fn new() -> (status: StatusLoop)
        ensures
            status.phase == LoopPhase::Rendering,
            !status.wake.pending,
            status.wf(),
    {
        StatusLoop { phase: LoopPhase::Rendering, wake: WakeSignal::new() }
    }

    /// Returns whether `event` can occur in the loop's present phase.
    pub fn accepts(&self, event: &LoopEvent) -> (ok: bool)
        ensures
            ok == self.expects(*event),
    {
        match (self.phase, *event) {
            (LoopPhase::Rendering, LoopEvent::Rendered { second }) => second < 60,
            (LoopPhase::Waiting { .. }, LoopEvent::TimerElapsed) => true,
            (_, LoopEvent::Woken) => true,
            _ => false,
        }
    }

    /// Takes an event and says what to do next.
    ///
    /// After a render the loop waits until the next minute boundary, unless
    /// a wake arrived during the render: then the wait is over before it
    /// began, and the loop renders again. A wait ends with the first of the
    /// timer and a wake, and the loop renders whichever it was.
    pub fn step(&mut self, event: LoopEvent) -> (action: LoopAction)
        requires
            old(self).wf(),
            old(self).expects(event),
        ensures
            final(self).wf(),
            *final(self) == old(self).after(event),
            action == old(self).answer(event),
    {
        match (self.phase, event) {
            (LoopPhase::Rendering, LoopEvent::Rendered { second }) => {
                if self.wake.try_wait() {
                    LoopAction::Render
                } else {
                    let remaining = seconds_to_boundary(second);
                    self.phase = LoopPhase::Waiting { remaining };
                    LoopAction::Wait(remaining)
                }
            },
            (LoopPhase::Rendering, LoopEvent::Woken) => {
                self.wake.raise();
                LoopAction::Proceed
            },
            _ => {
                self.phase = LoopPhase::Rendering;
                LoopAction::Render
            },
        }
    }
}

/// A wake that arrives between two waits is not lost, and wakes coalesce:
/// after any number of wakes, at least one, during a render, the wait that
/// follows the render is over at once and the loop renders again; the wait
/// after that second render finds nothing pending and runs to the minute
/// boundary.
pub proof fn lemma_wake_during_render(status: StatusLoop, wakes: nat, first: u32, second: u32)
    requires
        status.phase is Rendering,
        wakes >= 1,
        first < MINUTE,
        second < MINUTE,
    ensures
        status.after_wakes(wakes).phase is Rendering,
        status.after_wakes(wakes).wake.wait_returns(),
        status.after_wakes(wakes).answer(LoopEvent::Rendered { second: first })
            == LoopAction::Render,
        status.after_wakes(wakes).after(LoopEvent::Rendered { second: first }).answer(
            LoopEvent::Rendered { second },
        ) == LoopAction::Wait(boundary_distance(second) as u64),
    decreases wakes,
{
    let woken = status.after(LoopEvent::Woken);
    if wakes > 1 {
        lemma_wake_during_render(woken, (wakes - 1) as nat, first, second);
    } else {
        assert(woken.after_wakes(0) == woken);
    }
}

/// The line is rendered at least once per minute: what follows a render is
/// another render or a wait of at most a minute, which ends at the minute
/// boundary if no wake ends it before.
pub proof fn lemma_render_within_a_minute(status: StatusLoop, second: u32)
    requires
        status.phase is Rendering,
        second < MINUTE,
    ensures
        match status.answer(LoopEvent::Rendered { second }) {
            LoopAction::Render => status.wake.pending,
            LoopAction::Wait(remaining) => {
                &&& !status.wake.pending
                &&& 1 <= remaining <= MINUTE
                &&& (second + remaining) % (MINUTE as int) == 0
                &&& status.after(LoopEvent::Rendered { second }).phase == (LoopPhase::Waiting {
                    remaining,
                })
            },
            LoopAction::Proceed => false,
        },
{
}

/// The outcome of a wait does not depend on what ended it: a waiting loop
/// renders next, in the same state, whether the timer elapsed or a wake
/// arrived.
pub proof fn lemma_wait_ends_alike(status: StatusLoop)
    requires
        status.wf(),
        status.phase is Waiting,
    ensures
        status.after(LoopEvent::TimerElapsed) == status.after(LoopEvent::Woken),
        status.answer(LoopEvent::TimerElapsed) == status.answer(LoopEvent::Woken),
        status.answer(LoopEvent::Woken) == LoopAction::Render,
        status.after(LoopEvent::Woken).phase is Rendering,
        !status.after(LoopEvent::Woken).wake.pending,
{
}

/// A wait is as long as its timer unless a wake arrives earlier, and then
/// it is as long as the wake takes to arrive.
pub proof fn lemma_first_event_ends_wait(timer: u64, wake_at: u64)
    ensures
        wake_at < timer ==> wait_span(timer, Some(wake_at)) == wake_at,
        wake_at >= timer ==> wait_span(timer, Some(wake_at)) == timer,
        wait_span(timer, None) == timer,
{
}

} // verus!
