//! Core data model: user commands, session kinds, and the channel error
//! taxonomy shared by the timer and the dispatcher.

use vstd::prelude::*;

verus! {

/// A user intent delivered from the keyboard to the active session timer.
#[derive(Debug, Clone, Copy, PartialEq, Eq, Structural)]
pub enum Command {
    Pause,
    PauseResume,
    Reset,
    Resume,
    Skip,
}

/// The kind of interval a session timer counts down.
#[derive(Debug, Clone, Copy, PartialEq, Eq, Structural)]
pub enum SessionType {
    Work,
    ShortBreak,
    LongBreak,
}

impl SessionType {
    /// The fixed display label of this session kind.
    pub fn label(&self) -> (r: &'static str)
        ensures
            self is Work ==> r@ == "Work session"@,
            self is ShortBreak ==> r@ == "Short break"@,
            self is LongBreak ==> r@ == "Long break"@,
    {
        match self {
            SessionType::Work => "Work session",
            SessionType::ShortBreak => "Short break",
            SessionType::LongBreak => "Long break",
        }
    }

    /// The notification text describing the transition when a session of
    /// this kind completes.
    pub fn completion_message(&self) -> (r: &'static str)
        ensures
            self is Work ==> r@ == "Work session is over. Time for a break!"@,
            !(self is Work) ==> r@ == "Break is over. Time to focus!"@,
    {
        match self {
            SessionType::Work => "Work session is over. Time for a break!",
            SessionType::ShortBreak => "Break is over. Time to focus!",
            SessionType::LongBreak => "Break is over. Time to focus!",
        }
    }

    /// Whether a `Skip` command is honored during this session kind:
    /// breaks may be skipped, work sessions may not.
    pub fn skippable(&self) -> (r: bool)
        ensures
            r == !(self is Work),
    {
        match self {
            SessionType::Work => false,
            SessionType::ShortBreak => true,
            SessionType::LongBreak => true,
        }
    }
}

/// A broken-channel failure. Every variant is fatal for the run: once the
/// channel is gone there is no producer or consumer left to talk to.
#[derive(Debug, Clone, Copy, PartialEq, Eq, Structural)]
pub enum AppError {
    /// Sending a command failed because the receiving end is gone;
    /// carries the command that could not be delivered.
    ChannelSend(Command),
    /// A blocking receive (paused timer) found the channel closed.
    ChannelRecv,
    /// A bounded receive (running timer) found the channel closed.
    ChannelRecvTimeout,
}

} // verus!
