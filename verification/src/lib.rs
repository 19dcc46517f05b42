//! A Pomodoro-style interval timer core.
//!
//! The library alternates fixed-length work and break periods. It has two
//! parts: a duration formatter that renders a remaining time as a zero-padded
//! `MM:SS` string, and a timer state machine that tracks the current phase,
//! reacts to user and scheduler events, and decides which callbacks the
//! driving layer must arm or drop. Rendering and real callback scheduling are
//! left to the hosting application.

pub mod time_utils;
pub mod timer;
