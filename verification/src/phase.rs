//! The six phases of the timer and the button's transition table.

use vstd::prelude::*;

verus! {

/// Where the timer stands. Exactly one phase is active at any time.
#[derive(Clone, Copy, Debug, PartialEq, Eq, Structural)]
pub enum Phase {
    /// Nothing is running; the next click starts a study countdown.
    Init,
    /// The study countdown is running.
    Studying,
    /// The study countdown is halted.
    StudyPaused,
    /// The study countdown has run out; the next click starts a break.
    BreakPending,
    /// The break countdown is running.
    Breaking,
    /// The break countdown is halted.
    BreakPaused,
}

impl Phase {
    /// The phase that one click of the button leads to.
    pub open spec fn after_click(self) -> Phase {
        match self {
            Phase::Init => Phase::Studying,
            Phase::Studying => Phase::StudyPaused,
            Phase::StudyPaused => Phase::Studying,
            Phase::BreakPending => Phase::Breaking,
            Phase::Breaking => Phase::BreakPaused,
            Phase::BreakPaused => Phase::Breaking,
        }
    }

    /// Whether the phase has a countdown of its own, running or paused.
    pub open spec fn has_countdown(self) -> bool {
        self == Phase::Studying || self == Phase::StudyPaused || self == Phase::Breaking
            || self == Phase::BreakPaused
    }

    /// Whether a countdown is running, so that a tick of the clock moves it.
    pub open spec fn is_running(self) -> bool {
        self == Phase::Studying || self == Phase::Breaking
    }

    /// The phase that one click of the button leads to.
    pub fn next_on_click(self) -> (next: Phase)
        ensures
            next == self.after_click(),
    {
        match self {
            Phase::Init => Phase::Studying,
            Phase::Studying => Phase::StudyPaused,
            Phase::StudyPaused => Phase::Studying,
            Phase::BreakPending => Phase::Breaking,
            Phase::Breaking => Phase::BreakPaused,
            Phase::BreakPaused => Phase::Breaking,
        }
    }
}

} // verus!
