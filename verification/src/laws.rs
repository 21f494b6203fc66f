//! What holds of the timer on every input: the laws of its state machine,
//! proved over the model that the executable timer is specified against.

use vstd::prelude::*;
use crate::model::{
    whole_seconds_between, TimerModel, BREAK_SECONDS, MILLIS_PER_SECOND, STUDY_SECONDS,
};
use crate::phase::Phase;
use crate::trace::{
    break_expiries, break_notices, no_clicks, run, second_ticks, study_expiries, study_notices,
    Frame,
};

verus! {

/// A click leaves no countdown negative.
pub proof fn click_keeps_countdowns_nonnegative(m: TimerModel, now: int)
    requires
        m.wf(),
    ensures
        m.click(now).wf(),
{
}

/// A tick leaves no countdown negative, and never makes one longer.
pub proof fn tick_keeps_countdowns_nonnegative(m: TimerModel, now: int)
    requires
        m.wf(),
    ensures
        m.tick(now).state.wf(),
        m.tick(now).state.remaining_study <= m.remaining_study,
        m.tick(now).state.remaining_break <= m.remaining_break,
{
}

/// After any sequence of frames, with or without clicks, no countdown is
/// negative.
pub proof fn countdowns_never_negative(m: TimerModel, frames: Seq<Frame>)
    requires
        m.wf(),
    ensures
        run(m, frames).wf(),
    decreases frames.len(),
{
    if frames.len() > 0 {
        let f = frames.last();
        countdowns_never_negative(m, frames.drop_last());
        let before = run(m, frames.drop_last());
        click_keeps_countdowns_nonnegative(before, f.now);
        tick_keeps_countdowns_nonnegative(before.after_input(f.now, f.clicked), f.now);
    }
}

/// A click leads to the next phase of the transition table, whatever else the
/// state holds and whatever the time.
pub proof fn click_follows_table(m: TimerModel, now: int)
    ensures
        m.click(now).phase == m.phase.after_click(),
        m.phase == Phase::Init ==> m.click(now) == (TimerModel {
            phase: Phase::Studying,
            remaining_study: STUDY_SECONDS as int,
            anchor: now,
            notified: false,
            ..m
        }),
        m.phase == Phase::BreakPending ==> m.click(now) == (TimerModel {
            phase: Phase::Breaking,
            remaining_break: BREAK_SECONDS as int,
            anchor: now,
            notified: false,
            ..m
        }),
        m.phase.is_running() ==> m.click(now) == (TimerModel { phase: m.click(now).phase, ..m }),
        m.phase == Phase::StudyPaused || m.phase == Phase::BreakPaused ==> m.click(now) == (
        TimerModel { phase: m.click(now).phase, anchor: now, ..m }),
{
}

/// Two clicks on a countdown, running or paused, lead back to where it was:
/// the same phase, both countdowns and the record of the announcement
/// untouched. Only the anchor moves, to the time of the click that resumed.
///
/// Two clicks from the startup phase or from the pending break do not lead
/// back: the first starts a countdown at its full length and the second
/// pauses it.
pub proof fn click_twice(m: TimerModel, first: int, second: int)
    ensures
        m.phase.has_countdown() ==> m.click(first).click(second) == (TimerModel {
            anchor: if m.phase.is_running() {
                second
            } else {
                first
            },
            ..m
        }),
        m.phase == Phase::Init ==> m.click(first).click(second) == (TimerModel {
            phase: Phase::StudyPaused,
            remaining_study: STUDY_SECONDS as int,
            anchor: first,
            notified: false,
            ..m
        }),
        m.phase == Phase::BreakPending ==> m.click(first).click(second) == (TimerModel {
            phase: Phase::BreakPaused,
            remaining_break: BREAK_SECONDS as int,
            anchor: first,
            notified: false,
            ..m
        }),
{
}

/// A tick changes nothing and announces nothing unless a countdown is
/// running.
pub proof fn tick_moves_running_countdowns_only(m: TimerModel, now: int)
    requires
        !m.phase.is_running(),
    ensures
        m.tick(now).state == m,
        !m.tick(now).notify_study,
        !m.tick(now).notify_break,
{
}

/// A tick asks for an announcement exactly when it ends a phase whose end is
/// not on record yet, and the end is on record after it. A tick never asks for
/// both announcements.
pub proof fn tick_announces_unrecorded_expiry(m: TimerModel, now: int)
    ensures
        m.tick(now).notify_study <==> m.study_expires(now) && !m.notified,
        m.tick(now).notify_break <==> m.break_expires(now) && !m.notified,
        m.study_expires(now) || m.break_expires(now)
            ==> m.tick(now).state.notified,
        !(m.tick(now).notify_study && m.tick(now).notify_break),
{
}

/// A state with no announcement on record during its countdowns stays so
/// through every frame.
pub proof fn frame_keeps_fresh(m: TimerModel, now: int, clicked: bool)
    requires
        m.fresh(),
    ensures
        m.after_input(now, clicked).fresh(),
        m.frame(now, clicked).state.fresh(),
{
}

/// Every state that a run from a fresh state passes through is fresh. The
/// startup state is fresh.
pub proof fn run_keeps_fresh(m: TimerModel, frames: Seq<Frame>)
    requires
        m.fresh(),
    ensures
        run(m, frames).fresh(),
        forall|now: int| (#[trigger] TimerModel::initial(now)).fresh(),
    decreases frames.len(),
{
    if frames.len() > 0 {
        let f = frames.last();
        run_keeps_fresh(m, frames.drop_last());
        frame_keeps_fresh(run(m, frames.drop_last()), f.now, f.clicked);
    }
}

/// Over any run, no end of a phase is announced more than once: there are
/// never more announcements than ends of phases.
pub proof fn no_expiry_announced_twice(m: TimerModel, frames: Seq<Frame>)
    ensures
        study_notices(m, frames) <= study_expiries(m, frames),
        break_notices(m, frames) <= break_expiries(m, frames),
    decreases frames.len(),
{
    if frames.len() > 0 {
        let f = frames.last();
        no_expiry_announced_twice(m, frames.drop_last());
        let before = run(m, frames.drop_last()).after_input(f.now, f.clicked);
        tick_announces_unrecorded_expiry(before, f.now);
    }
}

/// Over any run from a fresh state, hence over any run from startup, every end
/// of a study phase is announced exactly once, and so is every end of a break.
pub proof fn each_expiry_announced_once(m: TimerModel, frames: Seq<Frame>)
    requires
        m.fresh(),
    ensures
        study_notices(m, frames) == study_expiries(m, frames),
        break_notices(m, frames) == break_expiries(m, frames),
    decreases frames.len(),
{
    if frames.len() > 0 {
        let f = frames.last();
        each_expiry_announced_once(m, frames.drop_last());
        run_keeps_fresh(m, frames.drop_last());
        let start = run(m, frames.drop_last());
        frame_keeps_fresh(start, f.now, f.clicked);
        tick_announces_unrecorded_expiry(start.after_input(f.now, f.clicked), f.now);
    }
}

/// Once a phase has ended, ticks without a click change nothing and announce
/// nothing, however many they are: the same holds in every phase in which no
/// countdown is running.
pub proof fn ticks_after_expiry_are_silent(m: TimerModel, frames: Seq<Frame>)
    requires
        !m.phase.is_running(),
        no_clicks(frames),
    ensures
        run(m, frames) == m,
        study_notices(m, frames) == 0,
        break_notices(m, frames) == 0,
    decreases frames.len(),
{
    if frames.len() > 0 {
        let f = frames.last();
        let rest = frames.drop_last();
        assert(no_clicks(rest)) by {
            assert forall|i: int| 0 <= i < rest.len() implies !(#[trigger] rest[i]).clicked by {
                assert(rest[i] == frames[i]);
            }
        }
        ticks_after_expiry_are_silent(m, rest);
        assert(!f.clicked) by {
            assert(f == frames[frames.len() - 1]);
        }
        tick_moves_running_countdowns_only(m, f.now);
    }
}

/// Ticks without a click, however many and at whatever times, announce the end
/// of at most one phase.
pub proof fn ticks_announce_at_most_once(m: TimerModel, frames: Seq<Frame>)
    requires
        no_clicks(frames),
    ensures
        study_notices(m, frames) + break_notices(m, frames) <= 1,
        study_notices(m, frames) + break_notices(m, frames) == 1 ==> !run(
            m,
            frames,
        ).phase.is_running(),
        run(m, frames).phase.is_running() ==> run(m, frames).phase == m.phase,
    decreases frames.len(),
{
    if frames.len() > 0 {
        let f = frames.last();
        let rest = frames.drop_last();
        assert(no_clicks(rest)) by {
            assert forall|i: int| 0 <= i < rest.len() implies !(#[trigger] rest[i]).clicked by {
                assert(rest[i] == frames[i]);
            }
        }
        ticks_announce_at_most_once(m, rest);
        assert(!f.clicked) by {
            assert(f == frames[frames.len() - 1]);
        }
        let before = run(m, rest);
        tick_announces_unrecorded_expiry(before, f.now);
        if !before.phase.is_running() {
            tick_moves_running_countdowns_only(before, f.now);
        }
    }
}

/// A running study countdown that meets `count` ticks, one second apart and
/// the first one second after its anchor, has lost `count` seconds after
/// them, as long as that leaves it above zero, and nothing has been
/// announced.
pub proof fn second_ticks_count_down(m: TimerModel, count: nat)
    requires
        m.phase == Phase::Studying,
        count < m.remaining_study,
    ensures
        run(m, second_ticks(m.anchor, count)) == (TimerModel {
            remaining_study: m.remaining_study - count,
            anchor: m.anchor + count * (MILLIS_PER_SECOND as int),
            ..m
        }),
        study_notices(m, second_ticks(m.anchor, count)) == 0,
        break_notices(m, second_ticks(m.anchor, count)) == 0,
    decreases count,
{
    let frames = second_ticks(m.anchor, count);
    if count > 0 {
        let fewer = (count - 1) as nat;
        assert(frames.drop_last() =~= second_ticks(m.anchor, fewer));
        second_ticks_count_down(m, fewer);
        let before = run(m, frames.drop_last());
        let f = frames.last();
        assert(f.now == before.anchor + MILLIS_PER_SECOND as int);
        assert(!f.clicked);
    }
}

/// A running study countdown that meets exactly as many ticks as it has
/// seconds left, one second apart and the first one second after its anchor,
/// has run out after them: the break is pending, the countdown stands at zero,
/// and if no announcement was on record, exactly one was asked for.
pub proof fn second_ticks_run_down(m: TimerModel)
    requires
        m.phase == Phase::Studying,
        m.remaining_study > 0,
    ensures
        run(m, second_ticks(m.anchor, m.remaining_study as nat)).phase == Phase::BreakPending,
        run(m, second_ticks(m.anchor, m.remaining_study as nat)).remaining_study == 0,
        run(m, second_ticks(m.anchor, m.remaining_study as nat)).notified,
        !m.notified ==> study_notices(m, second_ticks(m.anchor, m.remaining_study as nat)) == 1,
        break_notices(m, second_ticks(m.anchor, m.remaining_study as nat)) == 0,
{
    let count = m.remaining_study as nat;
    let frames = second_ticks(m.anchor, count);
    let fewer = (count - 1) as nat;
    assert(frames.drop_last() =~= second_ticks(m.anchor, fewer));
    second_ticks_count_down(m, fewer);
    let before = run(m, frames.drop_last());
    let f = frames.last();
    assert(f.now == before.anchor + MILLIS_PER_SECOND as int);
    assert(!f.clicked);
    assert(before.remaining_study == 1);
}

/// A pause holds the study countdown. From a running study countdown: a click
/// pauses it; ticks without a click, however many and however late, leave the
/// paused state as it is; the click that resumes leaves the countdown where it
/// was; and a tick one second after that click takes exactly one second off
/// it, or leaves it at zero if it stood there.
pub proof fn pause_holds_study_countdown(
    m: TimerModel,
    pause_at: int,
    idle: Seq<Frame>,
    resume_at: int,
)
    requires
        m.wf(),
        m.phase == Phase::Studying,
        no_clicks(idle),
    ensures
        run(m.click(pause_at), idle) == m.click(pause_at),
        m.click(pause_at).phase == Phase::StudyPaused,
        m.click(pause_at).remaining_study == m.remaining_study,
        m.click(pause_at).click(resume_at).phase == Phase::Studying,
        m.click(pause_at).click(resume_at).remaining_study == m.remaining_study,
        m.click(pause_at).click(resume_at).tick(
            resume_at + MILLIS_PER_SECOND as int,
        ).state.remaining_study == if m.remaining_study > 0 {
            m.remaining_study - 1
        } else {
            0
        },
{
    ticks_after_expiry_are_silent(m.click(pause_at), idle);
}

/// A pause holds the break countdown, in the same way as the study countdown.
pub proof fn pause_holds_break_countdown(
    m: TimerModel,
    pause_at: int,
    idle: Seq<Frame>,
    resume_at: int,
)
    requires
        m.wf(),
        m.phase == Phase::Breaking,
        no_clicks(idle),
    ensures
        run(m.click(pause_at), idle) == m.click(pause_at),
        m.click(pause_at).phase == Phase::BreakPaused,
        m.click(pause_at).remaining_break == m.remaining_break,
        m.click(pause_at).click(resume_at).phase == Phase::Breaking,
        m.click(pause_at).click(resume_at).remaining_break == m.remaining_break,
        m.click(pause_at).click(resume_at).tick(
            resume_at + MILLIS_PER_SECOND as int,
        ).state.remaining_break == if m.remaining_break > 0 {
            m.remaining_break - 1
        } else {
            0
        },
{
    ticks_after_expiry_are_silent(m.click(pause_at), idle);
}

/// A tick never drops a second and never counts one twice: two ticks take off
/// a running countdown what the later of them takes off it alone, wherever
/// between the anchor and the later tick the first one falls. Both ways lead
/// to the same phase, the same countdowns and the same record of the
/// announcement, and ask for the same announcements; while the countdown is
/// still running they lead to the same anchor too.
pub proof fn ticks_compose(m: TimerModel, sooner: int, later: int)
    requires
        m.wf(),
        m.phase.is_running(),
        m.anchor <= sooner <= later,
    ensures
        m.tick(sooner).state.tick(later).state.phase == m.tick(later).state.phase,
        m.tick(sooner).state.tick(later).state.remaining_study == m.tick(
            later,
        ).state.remaining_study,
        m.tick(sooner).state.tick(later).state.remaining_break == m.tick(
            later,
        ).state.remaining_break,
        m.tick(sooner).state.tick(later).state.notified == m.tick(later).state.notified,
        m.tick(later).state.phase.is_running() ==> m.tick(sooner).state.tick(later).state
            == m.tick(later).state,
        m.tick(sooner).notify_study || m.tick(sooner).state.tick(later).notify_study <==> m.tick(
            later,
        ).notify_study,
        m.tick(sooner).notify_break || m.tick(sooner).state.tick(later).notify_break <==> m.tick(
            later,
        ).notify_break,
{
    let first = whole_seconds_between(m.anchor, sooner);
    let moved = m.anchor + first * 1000;
    assert(MILLIS_PER_SECOND == 1000);
    assert(m.anchor <= moved <= sooner);
    assert(whole_seconds_between(moved, later) + first == whole_seconds_between(
        m.anchor,
        later,
    ));
}

} // verus!
