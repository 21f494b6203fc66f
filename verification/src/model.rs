//! The timer as a mathematical state machine.
//!
//! Everything here is specification: states hold unbounded integers, and the
//! two transitions, a click of the button and a tick of the clock, are
//! functions from state to state. The executable timer is specified against
//! these functions.

use vstd::prelude::*;
use crate::phase::Phase;

verus! {

/// Length of one study countdown, in seconds.
pub const STUDY_SECONDS: u32 = 1500;

/// Length of one break countdown, in seconds.
pub const BREAK_SECONDS: u32 = 300;

/// Milliseconds in one second: timestamps are in milliseconds, countdowns in
/// seconds.
pub const MILLIS_PER_SECOND: u64 = 1000;

/// The state of the timer, with mathematical integers.
pub struct TimerModel {
    /// The active phase.
    pub phase: Phase,
    /// Seconds left of the study countdown.
    pub remaining_study: int,
    /// Seconds left of the break countdown.
    pub remaining_break: int,
    /// The timestamp, in milliseconds, from which elapsed time is measured for
    /// the countdown that is running.
    pub anchor: int,
    /// Whether the end of the last countdown has been announced.
    pub notified: bool,
}

/// What one tick hands back besides the next state.
pub struct TickModel {
    /// The state after the tick.
    pub state: TimerModel,
    /// The study countdown ran out in this tick and had not been announced.
    pub notify_study: bool,
    /// The break countdown ran out in this tick and had not been announced.
    pub notify_break: bool,
}

/// Whole seconds that lie between `anchor` and `now`; none when `now` is not
/// later than `anchor`.
pub open spec fn whole_seconds_between(anchor: int, now: int) -> int {
    if now > anchor {
        (now - anchor) / (MILLIS_PER_SECOND as int)
    } else {
        0
    }
}

/// A countdown of `remaining` seconds after `elapsed` whole seconds: it stops
/// at zero. One that is not positive is left as it is.
pub open spec fn count_down(remaining: int, elapsed: int) -> int {
    if remaining <= 0 {
        remaining
    } else if elapsed >= remaining {
        0
    } else {
        remaining - elapsed
    }
}

/// Where the anchor of a countdown of `remaining` seconds stands after a tick
/// at `now`: moved forward by the whole seconds that were counted, so that the
/// fraction of a second that is left over is counted later. The anchor of a
/// countdown that is not positive stays.
pub open spec fn advance_anchor(remaining: int, anchor: int, now: int) -> int {
    if remaining <= 0 {
        anchor
    } else {
        anchor + whole_seconds_between(anchor, now) * (MILLIS_PER_SECOND as int)
    }
}

impl TimerModel {
    /// The state at startup.
    pub open spec fn initial(now: int) -> TimerModel {
        TimerModel {
            phase: Phase::Init,
            remaining_study: STUDY_SECONDS as int,
            remaining_break: BREAK_SECONDS as int,
            anchor: now,
            notified: false,
        }
    }

    /// Neither countdown is negative.
    pub open spec fn wf(self) -> bool {
        self.remaining_study >= 0 && self.remaining_break >= 0
    }

    /// No announcement is on record while a countdown is running or paused.
    /// Every state that the startup state can reach is like this.
    pub open spec fn fresh(self) -> bool {
        self.phase.has_countdown() ==> !self.notified
    }

    /// The state after a click of the button at `now`.
    ///
    /// A click that starts a countdown sets it to its full length, clears the
    /// announcement and anchors the countdown at `now`. A click that pauses
    /// changes the phase only. A click that resumes anchors the countdown at
    /// `now`, so that the time spent paused is not counted.
    pub open spec fn click(self, now: int) -> TimerModel {
        match self.phase {
            Phase::Init => TimerModel {
                phase: Phase::Studying,
                remaining_study: STUDY_SECONDS as int,
                anchor: now,
                notified: false,
                ..self
            },
            Phase::Studying => TimerModel { phase: Phase::StudyPaused, ..self },
            Phase::StudyPaused => TimerModel { phase: Phase::Studying, anchor: now, ..self },
            Phase::BreakPending => TimerModel {
                phase: Phase::Breaking,
                remaining_break: BREAK_SECONDS as int,
                anchor: now,
                notified: false,
                ..self
            },
            Phase::Breaking => TimerModel { phase: Phase::BreakPaused, ..self },
            Phase::BreakPaused => TimerModel { phase: Phase::Breaking, anchor: now, ..self },
        }
    }

    /// The state after a tick of the clock at `now`, and what is to be
    /// announced.
    ///
    /// Only a running countdown moves. It loses the whole seconds that lie
    /// between its anchor and `now`, and the anchor moves forward by as many.
    /// A countdown that stands at zero after that ends its phase: studying
    /// gives way to the pending break, the break to the startup phase. The end
    /// is announced unless an announcement is already on record, and is put on
    /// record either way.
    pub open spec fn tick(self, now: int) -> TickModel {
        match self.phase {
            Phase::Studying => {
                let left = count_down(self.remaining_study, whole_seconds_between(self.anchor, now));
                let counted = TimerModel {
                    remaining_study: left,
                    anchor: advance_anchor(self.remaining_study, self.anchor, now),
                    ..self
                };
                if left == 0 {
                    TickModel {
                        state: TimerModel { phase: Phase::BreakPending, notified: true, ..counted },
                        notify_study: !self.notified,
                        notify_break: false,
                    }
                } else {
                    TickModel { state: counted, notify_study: false, notify_break: false }
                }
            },
            Phase::Breaking => {
                let left = count_down(self.remaining_break, whole_seconds_between(self.anchor, now));
                let counted = TimerModel {
                    remaining_break: left,
                    anchor: advance_anchor(self.remaining_break, self.anchor, now),
                    ..self
                };
                if left == 0 {
                    TickModel {
                        state: TimerModel { phase: Phase::Init, notified: true, ..counted },
                        notify_study: false,
                        notify_break: !self.notified,
                    }
                } else {
                    TickModel { state: counted, notify_study: false, notify_break: false }
                }
            },
            _ => TickModel { state: self, notify_study: false, notify_break: false },
        }
    }

    /// Whether the tick at `now` ends the study phase.
    pub open spec fn study_expires(self, now: int) -> bool {
        self.phase == Phase::Studying && self.tick(now).state.phase == Phase::BreakPending
    }

    /// Whether the tick at `now` ends the break.
    pub open spec fn break_expires(self, now: int) -> bool {
        self.phase == Phase::Breaking && self.tick(now).state.phase == Phase::Init
    }

    /// The state in which one frame's tick runs: after the click, if the
    /// button was clicked in that frame.
    pub open spec fn after_input(self, now: int, clicked: bool) -> TimerModel {
        if clicked {
            self.click(now)
        } else {
            self
        }
    }

    /// One frame: the click, if there was one, and then the tick.
    pub open spec fn frame(self, now: int, clicked: bool) -> TickModel {
        self.after_input(now, clicked).tick(now)
    }
}

} // verus!
