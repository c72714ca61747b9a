use std::sync::mpsc;

use pomodoro::command_dispatcher::{CommandDispatcher, CommandParser, KeyAction, KeyInput, KeyPress};
use pomodoro::types::{AppError, Command};

#[test]
fn parser_maps_the_bound_keys() {
    let parser = CommandParser::new();
    assert_eq!(parser.get('p'), Some(Command::Pause));
    assert_eq!(parser.get(' '), Some(Command::PauseResume));
    assert_eq!(parser.get('x'), Some(Command::Reset));
    assert_eq!(parser.get('r'), Some(Command::Resume));
    assert_eq!(parser.get('s'), Some(Command::Skip));
    assert_eq!(parser.get('z'), None);
    assert_eq!(parser.get('q'), None);
}

#[test]
fn dispatch_sends_bound_commands_on_the_channel() {
    let (tx, rx) = mpsc::channel::<Command>();
    let dispatcher = CommandDispatcher::new(tx);
    for (ch, cmd) in [
        ('p', Command::Pause),
        (' ', Command::PauseResume),
        ('x', Command::Reset),
        ('r', Command::Resume),
        ('s', Command::Skip),
    ] {
        let key = KeyInput { key: KeyPress::Char(ch), ctrl: false };
        assert_eq!(dispatcher.dispatch(key), Ok(KeyAction::Send(cmd)));
        assert_eq!(rx.try_recv(), Ok(cmd));
    }
    // Nothing extra was published.
    assert!(rx.try_recv().is_err());
}

#[test]
fn quit_keys_quit_without_publishing() {
    let (tx, rx) = mpsc::channel::<Command>();
    let dispatcher = CommandDispatcher::new(tx);
    for key in [
        KeyInput { key: KeyPress::Char('q'), ctrl: false },
        KeyInput { key: KeyPress::Esc, ctrl: false },
        KeyInput { key: KeyPress::Esc, ctrl: true },
        KeyInput { key: KeyPress::Char('c'), ctrl: true },
    ] {
        assert_eq!(dispatcher.dispatch(key), Ok(KeyAction::Quit));
    }
    assert!(rx.try_recv().is_err());
}

#[test]
fn control_modifier_matters_only_for_c() {
    let (tx, rx) = mpsc::channel::<Command>();
    let dispatcher = CommandDispatcher::new(tx);
    // Control with a bound key still sends that key's command.
    let key = KeyInput { key: KeyPress::Char('p'), ctrl: true };
    assert_eq!(dispatcher.dispatch(key), Ok(KeyAction::Send(Command::Pause)));
    assert_eq!(rx.try_recv(), Ok(Command::Pause));
    // A plain `c` is unbound.
    let key = KeyInput { key: KeyPress::Char('c'), ctrl: false };
    assert_eq!(dispatcher.dispatch(key), Ok(KeyAction::Ignore));
    assert!(rx.try_recv().is_err());
}

#[test]
fn unbound_keys_are_ignored() {
    let (tx, rx) = mpsc::channel::<Command>();
    let dispatcher = CommandDispatcher::new(tx);
    for key in [
        KeyInput { key: KeyPress::Char('z'), ctrl: false },
        KeyInput { key: KeyPress::Other, ctrl: false },
        KeyInput { key: KeyPress::Other, ctrl: true },
    ] {
        assert_eq!(dispatcher.dispatch(key), Ok(KeyAction::Ignore));
    }
    assert!(rx.try_recv().is_err());
}

#[test]
fn dispatch_reports_send_failure_when_receiver_is_gone() {
    let (tx, rx) = mpsc::channel::<Command>();
    let dispatcher = CommandDispatcher::new(tx);
    drop(rx);
    let key = KeyInput { key: KeyPress::Char('p'), ctrl: false };
    assert_eq!(
        dispatcher.dispatch(key),
        Err(AppError::ChannelSend(Command::Pause))
    );
    // Quit and unbound keys do not touch the channel, so they still work.
    let key = KeyInput { key: KeyPress::Char('q'), ctrl: false };
    assert_eq!(dispatcher.dispatch(key), Ok(KeyAction::Quit));
}
