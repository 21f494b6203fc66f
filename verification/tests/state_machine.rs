use pomodoro::model::{BREAK_SECONDS, STUDY_SECONDS};
use pomodoro::phase::Phase;
use pomodoro::timer::TimerState;

fn studying_at(now: u64) -> TimerState {
    let mut timer = TimerState::new(now);
    timer.on_click(now);
    timer
}

fn break_pending_at(now: u64) -> TimerState {
    let mut timer = studying_at(now);
    timer.tick(now + 1_500_000);
    timer
}

fn breaking_at(now: u64) -> TimerState {
    let mut timer = break_pending_at(now);
    timer.on_click(now + 1_500_000);
    timer
}

#[test]
fn starts_in_init_with_full_countdowns() {
    let timer = TimerState::new(42);
    assert_eq!(timer.phase(), Phase::Init);
    assert_eq!(timer.remaining_study_seconds(), 1500);
    assert_eq!(timer.remaining_break_seconds(), 300);
    assert_eq!(timer.phase_started_at(), 42);
    assert!(!timer.notified());
    assert_eq!(STUDY_SECONDS, 1500);
    assert_eq!(BREAK_SECONDS, 300);
}

#[test]
fn phase_table_is_total() {
    assert_eq!(Phase::Init.next_on_click(), Phase::Studying);
    assert_eq!(Phase::Studying.next_on_click(), Phase::StudyPaused);
    assert_eq!(Phase::StudyPaused.next_on_click(), Phase::Studying);
    assert_eq!(Phase::BreakPending.next_on_click(), Phase::Breaking);
    assert_eq!(Phase::Breaking.next_on_click(), Phase::BreakPaused);
    assert_eq!(Phase::BreakPaused.next_on_click(), Phase::Breaking);
}

#[test]
fn click_in_init_starts_studying() {
    let mut timer = TimerState::new(0);
    timer.on_click(7_000);
    assert_eq!(timer.phase(), Phase::Studying);
    assert_eq!(timer.remaining_study_seconds(), 1500);
    assert_eq!(timer.phase_started_at(), 7_000);
    assert!(!timer.notified());
}

#[test]
fn click_in_studying_pauses_and_freezes_anchor() {
    let mut timer = studying_at(1_000);
    timer.tick(4_000);
    let before = timer;
    timer.on_click(9_999);
    assert_eq!(timer.phase(), Phase::StudyPaused);
    assert_eq!(timer.remaining_study_seconds(), before.remaining_study_seconds());
    assert_eq!(timer.remaining_break_seconds(), before.remaining_break_seconds());
    assert_eq!(timer.phase_started_at(), before.phase_started_at());
    assert_eq!(timer.notified(), before.notified());
}

#[test]
fn click_in_study_paused_resumes_and_anchors_at_now() {
    let mut timer = studying_at(0);
    timer.tick(3_000);
    timer.on_click(3_500);
    timer.on_click(20_000);
    assert_eq!(timer.phase(), Phase::Studying);
    assert_eq!(timer.remaining_study_seconds(), 1497);
    assert_eq!(timer.phase_started_at(), 20_000);
}

#[test]
fn click_in_break_pending_starts_break() {
    let mut timer = break_pending_at(0);
    assert_eq!(timer.phase(), Phase::BreakPending);
    assert!(timer.notified());
    timer.on_click(1_600_000);
    assert_eq!(timer.phase(), Phase::Breaking);
    assert_eq!(timer.remaining_break_seconds(), 300);
    assert_eq!(timer.remaining_study_seconds(), 0);
    assert_eq!(timer.phase_started_at(), 1_600_000);
    assert!(!timer.notified());
}

#[test]
fn click_in_breaking_pauses() {
    let mut timer = breaking_at(0);
    timer.tick(1_510_000);
    let before = timer;
    timer.on_click(1_511_000);
    assert_eq!(timer.phase(), Phase::BreakPaused);
    assert_eq!(timer.remaining_break_seconds(), 290);
    assert_eq!(timer.phase_started_at(), before.phase_started_at());
}

#[test]
fn click_in_break_paused_resumes() {
    let mut timer = breaking_at(0);
    timer.tick(1_510_000);
    timer.on_click(1_511_000);
    timer.on_click(1_900_000);
    assert_eq!(timer.phase(), Phase::Breaking);
    assert_eq!(timer.remaining_break_seconds(), 290);
    assert_eq!(timer.phase_started_at(), 1_900_000);
}

#[test]
fn two_clicks_on_a_running_countdown_lead_back() {
    let mut timer = studying_at(0);
    timer.tick(12_000);
    let before = timer;
    timer.on_click(12_100);
    timer.on_click(50_000);
    assert_eq!(timer.phase(), before.phase());
    assert_eq!(timer.remaining_study_seconds(), before.remaining_study_seconds());
    assert_eq!(timer.remaining_break_seconds(), before.remaining_break_seconds());
    assert_eq!(timer.notified(), before.notified());
    assert_eq!(timer.phase_started_at(), 50_000);
}

#[test]
fn two_clicks_on_a_paused_countdown_lead_back() {
    let mut timer = breaking_at(0);
    timer.tick(1_520_000);
    timer.on_click(1_520_000);
    let before = timer;
    timer.on_click(1_600_000);
    timer.on_click(1_700_000);
    assert_eq!(timer.phase(), Phase::BreakPaused);
    assert_eq!(timer.remaining_study_seconds(), before.remaining_study_seconds());
    assert_eq!(timer.remaining_break_seconds(), before.remaining_break_seconds());
    assert_eq!(timer.notified(), before.notified());
    assert_eq!(timer.phase_started_at(), 1_600_000);
}

#[test]
fn two_clicks_from_init_do_not_lead_back() {
    let mut timer = break_pending_at(0);
    timer.on_click(1_500_000);
    timer.tick(1_800_000);
    assert_eq!(timer.phase(), Phase::Init);
    assert_eq!(timer.remaining_study_seconds(), 0);
    timer.on_click(2_000_000);
    timer.on_click(2_000_500);
    assert_eq!(timer.phase(), Phase::StudyPaused);
    assert_eq!(timer.remaining_study_seconds(), 1500);
    assert!(!timer.notified());
}

#[test]
fn two_clicks_from_break_pending_do_not_lead_back() {
    let mut timer = break_pending_at(0);
    timer.on_click(1_500_000);
    timer.on_click(1_500_001);
    assert_eq!(timer.phase(), Phase::BreakPaused);
    assert_eq!(timer.remaining_break_seconds(), 300);
    assert!(!timer.notified());
}

#[test]
fn tick_takes_whole_seconds_and_keeps_the_fraction() {
    let mut timer = studying_at(10_000);
    let render = timer.tick(10_999);
    assert_eq!(timer.remaining_study_seconds(), 1500);
    assert_eq!(timer.phase_started_at(), 10_000);
    assert!(!render.notify_study_complete);
    timer.tick(13_700);
    assert_eq!(timer.remaining_study_seconds(), 1497);
    assert_eq!(timer.phase_started_at(), 13_000);
    timer.tick(14_000);
    assert_eq!(timer.remaining_study_seconds(), 1496);
    assert_eq!(timer.phase_started_at(), 14_000);
}

#[test]
fn tick_before_the_anchor_changes_nothing() {
    let mut timer = studying_at(10_000);
    let before = timer;
    let render = timer.tick(2_000);
    assert_eq!(timer, before);
    assert!(!render.notify_study_complete);
    assert!(!render.notify_break_complete);
    timer.tick(10_000);
    assert_eq!(timer, before);
}

#[test]
fn one_late_tick_equals_many_timely_ticks() {
    let mut late = studying_at(0);
    late.tick(725_400);
    let mut timely = studying_at(0);
    let mut now: u64 = 0;
    while now < 725_400 {
        now += 100;
        timely.tick(now);
    }
    assert_eq!(late, timely);
    assert_eq!(late.remaining_study_seconds(), 775);
    assert_eq!(late.phase_started_at(), 725_000);
}

#[test]
fn countdown_stops_at_zero_when_overshot() {
    let mut timer = studying_at(0);
    let render = timer.tick(u64::MAX);
    assert_eq!(timer.remaining_study_seconds(), 0);
    assert_eq!(timer.phase(), Phase::BreakPending);
    assert!(render.notify_study_complete);
    assert!(timer.phase_started_at() <= u64::MAX);

    let mut pausing = breaking_at(0);
    let done = pausing.tick(1_500_000 + 301_000);
    assert_eq!(pausing.remaining_break_seconds(), 0);
    assert_eq!(pausing.phase(), Phase::Init);
    assert!(done.notify_break_complete);
}

#[test]
fn fifteen_hundred_second_ticks_end_the_study_phase() {
    let mut timer = studying_at(5_000);
    assert_eq!(timer.remaining_study_seconds(), 1500);
    let mut notifications: u32 = 0;
    let mut k: u64 = 1;
    while k <= 1500 {
        let render = timer.tick(5_000 + k * 1_000);
        if render.notify_study_complete {
            notifications += 1;
        }
        assert!(!render.notify_break_complete);
        if k < 1500 {
            assert_eq!(timer.phase(), Phase::Studying);
            assert_eq!(u64::from(timer.remaining_study_seconds()), 1500 - k);
        }
        k += 1;
    }
    assert_eq!(timer.phase(), Phase::BreakPending);
    assert_eq!(timer.remaining_study_seconds(), 0);
    assert_eq!(notifications, 1);
    assert!(timer.notified());
}

#[test]
fn three_hundred_second_ticks_end_the_break() {
    let mut timer = breaking_at(0);
    let mut notifications: u32 = 0;
    let mut k: u64 = 1;
    while k <= 300 {
        let render = timer.tick(1_500_000 + k * 1_000);
        if render.notify_break_complete {
            notifications += 1;
        }
        assert!(!render.notify_study_complete);
        k += 1;
    }
    assert_eq!(timer.phase(), Phase::Init);
    assert_eq!(timer.remaining_break_seconds(), 0);
    assert_eq!(notifications, 1);
}

#[test]
fn ticks_after_expiry_announce_nothing_more() {
    let mut timer = studying_at(0);
    let mut study: u32 = 0;
    let mut rest: u32 = 0;
    let mut now: u64 = 0;
    while now < 1_600_000 {
        now += 250;
        let render = timer.tick(now);
        if render.notify_study_complete {
            study += 1;
        }
        if render.notify_break_complete {
            rest += 1;
        }
    }
    assert_eq!(study, 1);
    assert_eq!(rest, 0);
    assert_eq!(timer.phase(), Phase::BreakPending);
    let settled = timer;
    timer.tick(now + 999_999);
    assert_eq!(timer, settled);
}

#[test]
fn each_expiry_is_announced_once_over_two_full_rounds() {
    let mut timer = TimerState::new(0);
    let mut study: u32 = 0;
    let mut rest: u32 = 0;
    let mut now: u64 = 0;
    let mut round: u32 = 0;
    while round < 2 {
        timer.update(now, true);
        assert_eq!(timer.phase(), Phase::Studying);
        while timer.phase() == Phase::Studying {
            now += 700;
            let render = timer.update(now, false);
            if render.notify_study_complete {
                study += 1;
            }
        }
        let mut idle: u32 = 0;
        while idle < 50 {
            now += 700;
            let render = timer.update(now, false);
            assert!(!render.notify_study_complete && !render.notify_break_complete);
            idle += 1;
        }
        timer.update(now, true);
        assert_eq!(timer.phase(), Phase::Breaking);
        while timer.phase() == Phase::Breaking {
            now += 700;
            let render = timer.update(now, false);
            if render.notify_break_complete {
                rest += 1;
            }
        }
        round += 1;
    }
    assert_eq!(study, 2);
    assert_eq!(rest, 2);
    assert_eq!(timer.phase(), Phase::Init);
}

#[test]
fn ticks_move_nothing_outside_running_phases() {
    let mut init = TimerState::new(0);
    let before = init;
    let render = init.tick(9_000_000);
    assert_eq!(init, before);
    assert!(!render.notify_study_complete && !render.notify_break_complete);

    let mut pending = break_pending_at(0);
    let before = pending;
    let render = pending.tick(9_000_000);
    assert_eq!(pending, before);
    assert!(!render.notify_study_complete && !render.notify_break_complete);

    let mut paused = breaking_at(0);
    paused.on_click(1_500_000);
    let before = paused;
    let render = paused.tick(9_000_000);
    assert_eq!(paused, before);
    assert!(!render.notify_study_complete && !render.notify_break_complete);
}

#[test]
fn pause_holds_the_study_countdown() {
    let mut timer = studying_at(0);
    timer.tick(100_000);
    assert_eq!(timer.remaining_study_seconds(), 1400);
    timer.on_click(100_200);
    let mut now: u64 = 100_200;
    while now < 110_200 {
        now += 1_000;
        timer.tick(now);
        assert_eq!(timer.remaining_study_seconds(), 1400);
        assert_eq!(timer.phase(), Phase::StudyPaused);
    }
    timer.on_click(110_200);
    assert_eq!(timer.remaining_study_seconds(), 1400);
    timer.tick(111_200);
    assert_eq!(timer.remaining_study_seconds(), 1399);
}

#[test]
fn pause_holds_the_break_countdown() {
    let mut timer = breaking_at(0);
    timer.tick(1_560_000);
    assert_eq!(timer.remaining_break_seconds(), 240);
    timer.on_click(1_560_000);
    timer.tick(1_570_000);
    assert_eq!(timer.remaining_break_seconds(), 240);
    timer.on_click(1_570_000);
    timer.tick(1_571_000);
    assert_eq!(timer.remaining_break_seconds(), 239);
}

#[test]
fn update_clicks_before_it_ticks() {
    let mut timer = studying_at(0);
    timer.tick(5_000);
    let render = timer.update(9_000, true);
    assert_eq!(timer.phase(), Phase::StudyPaused);
    assert_eq!(timer.remaining_study_seconds(), 1495);
    assert_eq!(render.label, "24:55");

    let mut split = studying_at(0);
    split.tick(5_000);
    split.on_click(9_000);
    split.tick(9_000);
    assert_eq!(timer, split);

    let mut fresh = TimerState::new(0);
    let started = fresh.update(1_000, true);
    assert_eq!(fresh.phase(), Phase::Studying);
    assert_eq!(fresh.phase_started_at(), 1_000);
    assert_eq!(started.label, "25:00");
}

#[test]
fn update_without_a_click_is_a_tick() {
    let mut by_update = studying_at(0);
    let mut by_tick = studying_at(0);
    let a = by_update.update(61_000, false);
    let b = by_tick.tick(61_000);
    assert_eq!(by_update, by_tick);
    assert_eq!(a.label, b.label);
    assert_eq!(a.notify_study_complete, b.notify_study_complete);
    assert_eq!(a.notify_break_complete, b.notify_break_complete);
}
