//! What the window shows: a fixed label where no countdown is under way, the
//! countdown as minutes and seconds where one is.

use vstd::prelude::*;
use crate::model::TimerModel;
use crate::phase::Phase;

verus! {

/// Seconds in one minute.
pub const SECONDS_PER_MINUTE: u32 = 60;

/// The label of the startup phase.
pub const STUDY_LABEL: &'static str = "Study time! 25:00";

/// The label of the pending break.
pub const BREAK_LABEL: &'static str = "Break time! 5:00";

/// The character that stands for the digit `d`.
pub open spec fn digit_char(d: int) -> char {
    if d == 0 {
        '0'
    } else if d == 1 {
        '1'
    } else if d == 2 {
        '2'
    } else if d == 3 {
        '3'
    } else if d == 4 {
        '4'
    } else if d == 5 {
        '5'
    } else if d == 6 {
        '6'
    } else if d == 7 {
        '7'
    } else if d == 8 {
        '8'
    } else {
        '9'
    }
}

/// The decimal digits of `n`, most significant first, without leading zeros.
pub open spec fn decimal(n: int) -> Seq<char>
    decreases n,
{
    if n < 10 {
        seq![digit_char(n)]
    } else {
        decimal(n / 10).push(digit_char(n % 10))
    }
}

/// A countdown of `seconds` as text: the minutes in as many digits as they
/// take, a colon, and the seconds within the minute in exactly two digits.
pub open spec fn countdown_text(seconds: int) -> Seq<char> {
    let within = seconds % (SECONDS_PER_MINUTE as int);
    decimal(seconds / (SECONDS_PER_MINUTE as int)) + seq![
        ':',
        digit_char(within / 10),
        digit_char(within % 10),
    ]
}

/// The text that the window shows in state `m`.
pub open spec fn label_text(m: TimerModel) -> Seq<char> {
    match m.phase {
        Phase::Init => STUDY_LABEL@,
        Phase::BreakPending => BREAK_LABEL@,
        Phase::Studying | Phase::StudyPaused => countdown_text(m.remaining_study),
        Phase::Breaking | Phase::BreakPaused => countdown_text(m.remaining_break),
    }
}

/// The digit `d` as a string of one character.
fn digit_str(d: u32) -> (s: &'static str)
    requires
        d < 10,
    ensures
        s@ == seq![digit_char(d as int)],
{
    proof {
        reveal_strlit("0");
        reveal_strlit("1");
        reveal_strlit("2");
        reveal_strlit("3");
        reveal_strlit("4");
        reveal_strlit("5");
        reveal_strlit("6");
        reveal_strlit("7");
        reveal_strlit("8");
        reveal_strlit("9");
    }
    let s: &'static str = match d {
        0 => "0",
        1 => "1",
        2 => "2",
        3 => "3",
        4 => "4",
        5 => "5",
        6 => "6",
        7 => "7",
        8 => "8",
        _ => "9",
    };
    assert(s@ =~= seq![digit_char(d as int)]);
    s
}

/// Appends the decimal digits of `n` to `text`.
fn push_decimal(text: &mut String, n: u32)
    ensures
        final(text)@ == old(text)@ + decimal(n as int),
    decreases n,
{
    if n >= 10 {
        push_decimal(text, n / 10);
    }
    text.append(digit_str(n % 10));
}

/// Formats a countdown of `timer` seconds as minutes and seconds: 65 gives
/// `1:05`, 0 gives `0:00`.
pub fn show_timer(timer: u32) -> (text: String)
    ensures
        text@ == countdown_text(timer as int),
{
    let minutes: u32 = timer / SECONDS_PER_MINUTE;
    let within: u32 = timer % SECONDS_PER_MINUTE;
    let mut text = String::new();
    push_decimal(&mut text, minutes);
    proof {
        reveal_strlit(":");
    }
    text.append(":");
    text.append(digit_str(within / 10));
    text.append(digit_str(within % 10));
    text
}

} // verus!
