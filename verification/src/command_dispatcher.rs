//! Keyboard-to-command translation and dispatch.
//!
//! The front end reads raw key presses from the terminal and reduces each
//! to a [`KeyInput`]; [`CommandDispatcher::dispatch`] then decides what the
//! press means — quit, forward a command on the channel, or nothing — and
//! performs the send. The key bindings are a fixed table held by
//! [`CommandParser`].

use std::sync::mpsc::Sender;

use vstd::prelude::*;

use crate::types::{AppError, Command};

verus! {

/// Declares std::sync::mpsc::Sender, the sending end of a standard
/// channel, so that it can stand in signatures and fields; the verifier
/// sees nothing inside a value of it.
#[verifier::external_type_specification]
#[verifier::external_body]
#[verifier::reject_recursive_types(T)]
pub struct ExSender<T>(Sender<T>);

/// A key press, reduced to what the bindings distinguish: a printable
/// character, the escape key, or anything else.
#[derive(Debug, Clone, Copy, PartialEq, Eq, Structural)]
pub enum KeyPress {
    Char(char),
    Esc,
    Other,
}

/// One key press together with whether the control modifier was held.
#[derive(Debug, Clone, Copy, PartialEq, Eq, Structural)]
pub struct KeyInput {
    pub key: KeyPress,
    pub ctrl: bool,
}

/// What a key press asks for: end the whole run, forward a command to the
/// active session, or nothing.
#[derive(Debug, Clone, Copy, PartialEq, Eq, Structural)]
pub enum KeyAction {
    Quit,
    Send(Command),
    Ignore,
}

/// The fixed key bindings: `p` pauses, space toggles, `x` resets, `r`
/// resumes, `s` skips; every other character is unbound.
pub open spec fn spec_command_for(c: char) -> Option<Command> {
    if c == 'p' {
        Some(Command::Pause)
    } else if c == ' ' {
        Some(Command::PauseResume)
    } else if c == 'x' {
        Some(Command::Reset)
    } else if c == 'r' {
        Some(Command::Resume)
    } else if c == 's' {
        Some(Command::Skip)
    } else {
        None
    }
}

/// What a key press means. `q`, escape, and control-`c` quit; a character
/// bound in the table sends its command (the control modifier matters only
/// for `c`); everything else is ignored.
pub open spec fn spec_key_action(k: KeyInput) -> KeyAction {
    if k.ctrl && k.key == KeyPress::Char('c') {
        KeyAction::Quit
    } else if k.key == KeyPress::Char('q') {
        KeyAction::Quit
    } else {
        match k.key {
            KeyPress::Esc => KeyAction::Quit,
            KeyPress::Char(c) => match spec_command_for(c) {
                Some(cmd) => KeyAction::Send(cmd),
                None => KeyAction::Ignore,
            },
            KeyPress::Other => KeyAction::Ignore,
        }
    }
}

/// The fixed lookup table from key characters to commands.
pub struct CommandParser {}

impl CommandParser {
    /// Build the table.
    pub fn new() -> (r: CommandParser) {
        CommandParser {}
    }

    /// Look a key character up in the table.
    pub fn get(&self, c: char) -> (r: Option<Command>)
        ensures
            r == spec_command_for(c),
    {
        if c == 'p' {
            Some(Command::Pause)
        } else if c == ' ' {
            Some(Command::PauseResume)
        } else if c == 'x' {
            Some(Command::Reset)
        } else if c == 'r' {
            Some(Command::Resume)
        } else if c == 's' {
            Some(Command::Skip)
        } else {
            None
        }
    }
}

/// Relies on std::sync::mpsc::Sender::send: it fails exactly when the
/// receiving end has been dropped, and the error returns the undelivered
/// value.
#[verifier::external_body]
fn send_command(tx: &Sender<Command>, cmd: Command) -> (r: Result<(), Command>)
    ensures
        r matches Err(c) ==> c == cmd,
{
    tx.send(cmd).map_err(|e| e.0)
}

/// Translates key presses into commands and publishes them on the channel
/// whose receiving end the active session timer drains.
pub struct CommandDispatcher {
    tx: Sender<Command>,
    command_parser: CommandParser,
}

impl CommandDispatcher {
    /// Take the sending end of the command channel and set up the key
    /// bindings.
    pub fn new(tx: Sender<Command>) -> (r: CommandDispatcher) {
        CommandDispatcher { tx, command_parser: CommandParser::new() }
    }

    /// Decide what a key press means and, when it is bound to a command,
    /// forward that command on the channel. Returns the action taken, or
    /// the send failure when the receiving end is gone — fatal for the
    /// run, since nothing else consumes commands.
    pub fn dispatch(&self, k: KeyInput) -> (r: Result<KeyAction, AppError>)
        ensures
            r matches Ok(a) ==> a == spec_key_action(k),
            r matches Err(e) ==> (spec_key_action(k) matches KeyAction::Send(cmd)
                && e == AppError::ChannelSend(cmd)),
    {
        let action = if k.ctrl && k.key == KeyPress::Char('c') {
            KeyAction::Quit
        } else if k.key == KeyPress::Char('q') {
            KeyAction::Quit
        } else if matches!(k.key, KeyPress::Esc) {
            KeyAction::Quit
        } else if let KeyPress::Char(c) = k.key {
            match self.command_parser.get(c) {
                Some(cmd) => KeyAction::Send(cmd),
                None => KeyAction::Ignore,
            }
        } else {
            KeyAction::Ignore
        };
        match action {
            KeyAction::Send(cmd) => match send_command(&self.tx, cmd) {
                Ok(()) => Ok(KeyAction::Send(cmd)),
                Err(c) => Err(AppError::ChannelSend(c)),
            },
            other => Ok(other),
        }
    }
}

} // verus!
