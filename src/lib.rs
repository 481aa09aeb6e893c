//! A countdown timer and a work/break cycle timer, with the snapshot that a
//! display renders from either of them.
pub mod clock;
pub mod commands;
pub mod pomodoro;
pub mod runner;
pub mod timer;
