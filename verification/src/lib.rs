//! A flip-clock for the terminal: wall clock, pomodoro, countdown timer and
//! stopwatch. This crate holds the verified core: the modes and their
//! cycling, the timer state machines, the time formatting and the parser for
//! typed timer lengths.

pub mod modes;
pub mod text;
pub mod timefmt;
pub mod parse;
pub mod theme;
pub mod timers;
pub mod app;
pub mod clock;
pub mod glyph;
pub mod laws;
pub mod render;
pub mod placement;
