//! The per-endpoint polling loop as a state machine.
//!
//! Each endpoint is driven by its own loop, independent of every other:
//! probe once immediately on start, then forever sleep for the endpoint's
//! interval and probe again. The machine here makes those decisions; the
//! caller performs the probe or the sleep it is told to and reports back.

use vstd::prelude::*;

verus! {

use vstd::arithmetic::div_mod::{lemma_div_non_zero, lemma_remainder_lower};

/// Where one polling loop stands: about to probe, or waiting out its
/// interval. There is no terminal state.
#[derive(Debug, Clone, Copy, PartialEq, Eq, Structural)]
pub enum LoopState {
    Probing,
    Idle,
}

/// What the loop's driver is told to do next: probe the endpoint now, or
/// sleep for the given number of seconds.
#[derive(Debug, Clone, Copy, PartialEq, Eq, Structural)]
pub enum LoopAction {
    Probe,
    Sleep { seconds: u64 },
}

/// The timer state of one endpoint's polling loop. It holds nothing but
/// the endpoint's own interval and the loop's position: no timer, probe
/// result or other input of any other endpoint's loop enters it, so the
/// cadence of one loop cannot depend on another.
#[derive(Debug, Clone, Copy, PartialEq, Eq, Structural)]
pub struct Scheduler {
    pub interval: u64,
    pub state: LoopState,
}

impl Scheduler {
    /// Starts the loop for one endpoint. The first action is a probe,
    /// whatever the interval: the first probe is owed immediately on
    /// start, not after a first sleep.
    pub fn start(interval: u64) -> (r: (Scheduler, LoopAction))
        ensures
            r.0.interval == interval,
            r.0.state == LoopState::Probing,
            r.1 == LoopAction::Probe,
    {
        (Scheduler { interval, state: LoopState::Probing }, LoopAction::Probe)
    }

    /// A probe finished, successfully or not: the loop goes idle and its
    /// driver is told to sleep for exactly the interval — every probe is
    /// followed by the same sleep, so no outcome changes the cadence.
    pub fn on_probe_completed(&mut self) -> (a: LoopAction)
        requires
            old(self).state == LoopState::Probing,
        ensures
            final(self).interval == old(self).interval,
            final(self).state == LoopState::Idle,
            a == (LoopAction::Sleep { seconds: old(self).interval }),
    {
        self.state = LoopState::Idle;
        LoopAction::Sleep { seconds: self.interval }
    }

    /// The sleep elapsed: the loop probes again. The loop never
    /// terminates; after every sleep another probe is owed.
    pub fn on_sleep_elapsed(&mut self) -> (a: LoopAction)
        requires
            old(self).state == LoopState::Idle,
        ensures
            final(self).interval == old(self).interval,
            final(self).state == LoopState::Probing,
            a == LoopAction::Probe,
    {
        self.state = LoopState::Probing;
        LoopAction::Probe
    }
}

/// The seconds one loop has spent sleeping after `sleeps` completed
/// sleeps: every sleep the machine orders is exactly the loop's own
/// interval (`on_probe_completed`), so nothing of any other loop enters
/// the count.
pub open spec fn slept_seconds(interval: u64, sleeps: nat) -> int {
    sleeps * interval
}

/// The probes one loop has made after `sleeps` completed sleeps: one
/// immediately on start (`start`), then one after each sleep
/// (`on_sleep_elapsed`).
pub open spec fn probes_made(sleeps: nat) -> nat {
    sleeps + 1
}

/// A fast loop accumulates more probes than a slow one over a short
/// window: within any window of sleeping time shorter than the slow
/// loop's interval, the slow loop completes no sleep and so has made only
/// its starting probe, while a loop whose interval fits the window
/// completes `window / fast` sleeps and has probed once more than that —
/// at least twice. Each count is a function of that loop's own interval
/// alone.
pub proof fn lemma_fast_loop_accumulates_more(fast: u64, slow: u64, window: u64)
    requires
        0 < fast <= window,
        window < slow,
    ensures
        slept_seconds(fast, (window / fast) as nat) <= window,
        probes_made((window / fast) as nat) >= 2,
        slept_seconds(slow, 1) > window,
        probes_made(0) == 1,
{
    let w = window as int;
    let f = fast as int;
    lemma_remainder_lower(w, f);
    lemma_div_non_zero(w, f);
}

} // verus!
