//! The two announcements that the timer asks the shell to deliver.

use vstd::prelude::*;

verus! {

/// The end of a phase, as it is announced on the desktop.
#[derive(Clone, Copy, Debug, PartialEq, Eq, Structural)]
pub enum Notification {
    /// The study countdown has run out.
    StudyComplete,
    /// The break countdown has run out.
    BreakComplete,
}

impl Notification {
    /// The headline of the announcement, as a sequence of characters.
    pub open spec fn summary_text(self) -> Seq<char> {
        match self {
            Notification::StudyComplete => "Time's up!"@,
            Notification::BreakComplete => "Break's up!"@,
        }
    }

    /// The message of the announcement, as a sequence of characters.
    pub open spec fn body_text(self) -> Seq<char> {
        match self {
            Notification::StudyComplete => "Study time is over! Do a 5-minute break."@,
            Notification::BreakComplete => "Break time is over! Restart the pomodoro if you want."@,
        }
    }

    /// The headline of the announcement.
    pub fn summary(self) -> (text: &'static str)
        ensures
            text@ == self.summary_text(),
    {
        match self {
            Notification::StudyComplete => "Time's up!",
            Notification::BreakComplete => "Break's up!",
        }
    }

    /// The message of the announcement.
    pub fn body(self) -> (text: &'static str)
        ensures
            text@ == self.body_text(),
    {
        match self {
            Notification::StudyComplete => "Study time is over! Do a 5-minute break.",
            Notification::BreakComplete => "Break time is over! Restart the pomodoro if you want.",
        }
    }
}

} // verus!
