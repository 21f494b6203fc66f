//! The executable timer.
//!
//! The shell that owns the window keeps one `TimerState` and calls `update`
//! once per frame with the current time and whether the button was clicked.
//! Time is a number of milliseconds since an origin that the shell fixes once;
//! the timer only ever looks at differences.

use vstd::prelude::*;
use crate::label::{label_text, show_timer, BREAK_LABEL, STUDY_LABEL};
use crate::model::{
    count_down, whole_seconds_between, TimerModel, BREAK_SECONDS, MILLIS_PER_SECOND,
    STUDY_SECONDS,
};
use crate::phase::Phase;

verus! {

/// The state of the timer. It changes only through `on_click`, `tick` and
/// `update`.
#[derive(Clone, Copy, Debug, PartialEq, Eq, Structural)]
pub struct TimerState {
    phase: Phase,
    remaining_study_seconds: u32,
    remaining_break_seconds: u32,
    phase_started_at: u64,
    notified: bool,
}

/// What the shell is to do after one frame: show `label`, and announce the end
/// of a phase where one of the two signals is set.
#[derive(Debug)]
pub struct RenderModel {
    /// The text to show.
    pub label: String,
    /// The study phase has just ended and is to be announced.
    pub notify_study_complete: bool,
    /// The break has just ended and is to be announced.
    pub notify_break_complete: bool,
}

/// A `RenderModel` with its label as a sequence of characters.
pub struct RenderView {
    /// The text to show.
    pub label: Seq<char>,
    /// The study phase has just ended and is to be announced.
    pub notify_study_complete: bool,
    /// The break has just ended and is to be announced.
    pub notify_break_complete: bool,
}

impl View for RenderModel {
    type V = RenderView;

    open spec fn view(&self) -> RenderView {
        RenderView {
            label: self.label@,
            notify_study_complete: self.notify_study_complete,
            notify_break_complete: self.notify_break_complete,
        }
    }
}

/// What the shell is to do after a tick in state `m` at `now`. The label is
/// that of `m` itself: a frame shows the state that its tick started from.
pub open spec fn render_of(m: TimerModel, now: int) -> RenderView {
    RenderView {
        label: label_text(m),
        notify_study_complete: m.tick(now).notify_study,
        notify_break_complete: m.tick(now).notify_break,
    }
}

impl View for TimerState {
    type V = TimerModel;

    closed spec fn view(&self) -> TimerModel {
        TimerModel {
            phase: self.phase,
            remaining_study: self.remaining_study_seconds as int,
            remaining_break: self.remaining_break_seconds as int,
            anchor: self.phase_started_at as int,
            notified: self.notified,
        }
    }
}

/// Counts `elapsed` whole seconds off a countdown of `remaining` seconds,
/// stopping at zero.
fn count_down_by(remaining: u32, elapsed: u64) -> (left: u32)
    ensures
        left as int == count_down(remaining as int, elapsed as int),
{
    if elapsed >= remaining as u64 {
        0
    } else {
        remaining - elapsed as u32
    }
}

impl TimerState {
    /// No announcement is on record while a countdown is running or paused.
    #[verifier::type_invariant]
    spec fn no_stale_announcement(self) -> bool {
        self.phase.has_countdown() ==> !self.notified
    }

    /// No countdown of a timer is negative.
    pub proof fn countdowns_nonnegative(self)
        ensures
            self@.wf(),
    {
    }

    /// The timer at startup: no countdown under way, both countdowns at their
    /// full length, nothing announced.
    pub fn new(now: u64) -> (state: TimerState)
        ensures
            state@ == TimerModel::initial(now as int),
            state@.fresh(),
    {
        TimerState {
            phase: Phase::Init,
            remaining_study_seconds: STUDY_SECONDS,
            remaining_break_seconds: BREAK_SECONDS,
            phase_started_at: now,
            notified: false,
        }
    }

    /// The active phase.
    pub fn phase(&self) -> (phase: Phase)
        ensures
            phase == self@.phase,
    {
        self.phase
    }

    /// Seconds left of the study countdown.
    pub fn remaining_study_seconds(&self) -> (seconds: u32)
        ensures
            seconds as int == self@.remaining_study,
    {
        self.remaining_study_seconds
    }

    /// Seconds left of the break countdown.
    pub fn remaining_break_seconds(&self) -> (seconds: u32)
        ensures
            seconds as int == self@.remaining_break,
    {
        self.remaining_break_seconds
    }

    /// The timestamp from which elapsed time is measured for the countdown
    /// that is running.
    pub fn phase_started_at(&self) -> (anchor: u64)
        ensures
            anchor as int == self@.anchor,
    {
        self.phase_started_at
    }

    /// Whether the end of the last countdown has been announced.
    pub fn notified(&self) -> (notified: bool)
        ensures
            notified == self@.notified,
    {
        self.notified
    }

    /// The button was clicked at `now`: the timer moves to the next phase of
    /// the transition table. Starting a countdown sets it to its full length
    /// and clears the record of the announcement; starting or resuming one
    /// anchors it at `now`.
    pub fn on_click(&mut self, now: u64)
        ensures
            final(self)@ == old(self)@.click(now as int),
            final(self)@.fresh(),
    {
        proof {
            use_type_invariant(&*self);
        }
        let next = self.phase.next_on_click();
        match self.phase {
            Phase::Init => {
                self.phase_started_at = now;
                self.notified = false;
                self.remaining_study_seconds = STUDY_SECONDS;
            },
            Phase::BreakPending => {
                self.phase_started_at = now;
                self.notified = false;
                self.remaining_break_seconds = BREAK_SECONDS;
            },
            Phase::StudyPaused | Phase::BreakPaused => {
                self.phase_started_at = now;
            },
            Phase::Studying | Phase::Breaking => {},
        }
        self.phase = next;
    }

    /// The whole seconds between the anchor and `now`; moves the anchor
    /// forward by as many.
    fn take_elapsed_seconds(&mut self, now: u64) -> (elapsed: u64)
        ensures
            elapsed as int == whole_seconds_between(old(self)@.anchor, now as int),
            final(self)@ == (TimerModel {
                anchor: old(self)@.anchor + elapsed * (MILLIS_PER_SECOND as int),
                ..old(self)@
            }),
    {
        proof {
            use_type_invariant(&*self);
        }
        if now > self.phase_started_at {
            let elapsed: u64 = (now - self.phase_started_at) / MILLIS_PER_SECOND;
            self.phase_started_at = self.phase_started_at + elapsed * MILLIS_PER_SECOND;
            elapsed
        } else {
            0
        }
    }

    /// Puts the end of a countdown on record; tells whether it is to be
    /// announced, which it is unless an announcement is on record already.
    fn record_expiry(&mut self) -> (announce: bool)
        requires
            !old(self)@.phase.has_countdown(),
        ensures
            announce == !old(self)@.notified,
            final(self)@ == (TimerModel { notified: true, ..old(self)@ }),
    {
        let announce = !self.notified;
        self.notified = true;
        announce
    }

    /// The text that the window shows in this state.
    pub fn display(&self) -> (label: String)
        ensures
            label@ == label_text(self@),
    {
        match self.phase {
            Phase::Init => STUDY_LABEL.to_owned(),
            Phase::BreakPending => BREAK_LABEL.to_owned(),
            Phase::Studying | Phase::StudyPaused => show_timer(self.remaining_study_seconds),
            Phase::Breaking | Phase::BreakPaused => show_timer(self.remaining_break_seconds),
        }
    }

    /// The clock stands at `now`: a running countdown loses the whole seconds
    /// that have passed, and a countdown that has run out ends its phase.
    ///
    /// The label handed back is that of the state before the tick.
    ///
    /// Every end of a phase is announced: the timer never holds a stale
    /// record that would suppress the announcement.
    pub fn tick(&mut self, now: u64) -> (render: RenderModel)
        ensures
            final(self)@ == old(self)@.tick(now as int).state,
            final(self)@.fresh(),
            render@ == render_of(old(self)@, now as int),
            render.notify_study_complete == old(self)@.study_expires(now as int),
            render.notify_break_complete == old(self)@.break_expires(now as int),
    {
        proof {
            use_type_invariant(&*self);
        }
        let label = self.display();
        let mut notify_study_complete = false;
        let mut notify_break_complete = false;
        match self.phase {
            Phase::Studying => {
                if self.remaining_study_seconds > 0 {
                    let elapsed: u64 = self.take_elapsed_seconds(now);
                    self.remaining_study_seconds = count_down_by(
                        self.remaining_study_seconds,
                        elapsed,
                    );
                }
                if self.remaining_study_seconds == 0 {
                    self.phase = Phase::BreakPending;
                    notify_study_complete = self.record_expiry();
                }
            },
            Phase::Breaking => {
                if self.remaining_break_seconds > 0 {
                    let elapsed: u64 = self.take_elapsed_seconds(now);
                    self.remaining_break_seconds = count_down_by(
                        self.remaining_break_seconds,
                        elapsed,
                    );
                }
                if self.remaining_break_seconds == 0 {
                    self.phase = Phase::Init;
                    notify_break_complete = self.record_expiry();
                }
            },
            _ => {},
        }
        RenderModel { label, notify_study_complete, notify_break_complete }
    }

    /// One frame at `now`: the click, if the button was clicked, and then the
    /// tick. The label is that of the state after the click.
    pub fn update(&mut self, now: u64, clicked: bool) -> (render: RenderModel)
        ensures
            final(self)@ == old(self)@.frame(now as int, clicked).state,
            final(self)@.fresh(),
            render@ == render_of(old(self)@.after_input(now as int, clicked), now as int),
            render.notify_study_complete == old(self)@.after_input(
                now as int,
                clicked,
            ).study_expires(now as int),
            render.notify_break_complete == old(self)@.after_input(
                now as int,
                clicked,
            ).break_expires(now as int),
    {
        if clicked {
            self.on_click(now);
        }
        self.tick(now)
    }
}

} // verus!
