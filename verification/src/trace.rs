//! Runs of the timer: what a sequence of frames leads to, and how often the
//! end of a phase occurs and is announced on the way.

use vstd::prelude::*;
use crate::model::{TimerModel, MILLIS_PER_SECOND};

verus! {

/// What the shell hands to the timer in one frame.
pub struct Frame {
    /// The time of the frame, in milliseconds.
    pub now: int,
    /// Whether the button was clicked in the frame.
    pub clicked: bool,
}

/// The state that `frames`, taken one after the other, lead to from `m`.
pub open spec fn run(m: TimerModel, frames: Seq<Frame>) -> TimerModel
    decreases frames.len(),
{
    if frames.len() == 0 {
        m
    } else {
        let f = frames.last();
        run(m, frames.drop_last()).frame(f.now, f.clicked).state
    }
}

/// How many of `frames` end a study phase, starting from `m`.
pub open spec fn study_expiries(m: TimerModel, frames: Seq<Frame>) -> nat
    decreases frames.len(),
{
    if frames.len() == 0 {
        0
    } else {
        let f = frames.last();
        let before = run(m, frames.drop_last()).after_input(f.now, f.clicked);
        study_expiries(m, frames.drop_last()) + if before.study_expires(f.now) {
            1nat
        } else {
            0nat
        }
    }
}

/// How many of `frames` end a break, starting from `m`.
pub open spec fn break_expiries(m: TimerModel, frames: Seq<Frame>) -> nat
    decreases frames.len(),
{
    if frames.len() == 0 {
        0
    } else {
        let f = frames.last();
        let before = run(m, frames.drop_last()).after_input(f.now, f.clicked);
        break_expiries(m, frames.drop_last()) + if before.break_expires(f.now) {
            1nat
        } else {
            0nat
        }
    }
}

/// How many of `frames` ask for the end of a study phase to be announced,
/// starting from `m`.
pub open spec fn study_notices(m: TimerModel, frames: Seq<Frame>) -> nat
    decreases frames.len(),
{
    if frames.len() == 0 {
        0
    } else {
        let f = frames.last();
        let before = run(m, frames.drop_last());
        study_notices(m, frames.drop_last()) + if before.frame(f.now, f.clicked).notify_study {
            1nat
        } else {
            0nat
        }
    }
}

/// How many of `frames` ask for the end of a break to be announced, starting
/// from `m`.
pub open spec fn break_notices(m: TimerModel, frames: Seq<Frame>) -> nat
    decreases frames.len(),
{
    if frames.len() == 0 {
        0
    } else {
        let f = frames.last();
        let before = run(m, frames.drop_last());
        break_notices(m, frames.drop_last()) + if before.frame(f.now, f.clicked).notify_break {
            1nat
        } else {
            0nat
        }
    }
}

/// Whether the button is clicked in none of `frames`.
pub open spec fn no_clicks(frames: Seq<Frame>) -> bool {
    forall|i: int| 0 <= i < frames.len() ==> !(#[trigger] frames[i]).clicked
}

/// `count` frames without a click, one second apart, the first of them one
/// second after `start`.
pub open spec fn second_ticks(start: int, count: nat) -> Seq<Frame> {
    Seq::new(
        count,
        |k: int| Frame { now: start + (k + 1) * (MILLIS_PER_SECOND as int), clicked: false },
    )
}

} // verus!
