//! A verified timing engine: an elapsed/remaining-time clock driven purely by
//! monotonic timestamps, a lap recorder, a Pomodoro phase cycle, a bounded
//! registry of named countdowns, a cooperative tick-scheduler state machine,
//! and the mode controller that orchestrates them.
//!
//! Every operation takes the current monotonic time as an explicit argument;
//! nothing here reads a clock, blocks, or performs I/O. The host program is
//! expected to pump events (keys, ticks, focus changes) into the controller
//! and carry out the effects it returns.

pub mod alerts;
pub mod clock;
pub mod codec;
pub mod controller;
pub mod countdown;
pub mod hms;
pub mod parse;
pub mod pomodoro;
pub mod scheduler;
pub mod stopwatch;
pub mod text;
