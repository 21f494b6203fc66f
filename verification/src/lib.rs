//! A Pomodoro timer as a verified state machine: twenty-five minutes of
//! study, five minutes of break, one button that starts, pauses and resumes.

pub mod label;
pub mod laws;
pub mod model;
pub mod notification;
pub mod phase;
pub mod timer;
pub mod trace;
