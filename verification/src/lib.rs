//! A Pomodoro timer library: a verified session-timer state machine,
//! the cycle controller that sequences work and break sessions, and the
//! keyboard-to-command translation used by the interactive front end.
//!
//! The library is pure logic: it decides, for every command or tick a
//! session observes, what the next state is and which side effects (progress
//! display, notification, sound) the front end should perform. The front
//! end owns the terminal, the audio device and the command channel's
//! receiving end, and drives these functions in a loop.

pub mod command_dispatcher;
pub mod controller;
pub mod session_timer;
pub mod types;
