use pomodoro::session_timer::{RecvOutcome, SessionTimer, StepStatus};
use pomodoro::types::{AppError, Command, SessionType};

#[test]
fn new_starts_running_with_full_duration() {
    let t = SessionTimer::new(1500, SessionType::Work, 1, 4, false);
    assert_eq!(t.duration, 1500);
    assert_eq!(t.remaining_seconds, 1500);
    assert!(!t.is_paused);
    assert_eq!(t.session, SessionType::Work);
    assert_eq!(t.current_cycle, 1);
    assert_eq!(t.total_cycles, 4);
    assert!(t.sound);
}

#[test]
fn ticks_count_down_and_complete() {
    let mut t = SessionTimer::new(5, SessionType::Work, 1, 4, false);
    for expected_remaining in [4u64, 3, 2, 1] {
        let (status, effects) = t.step(RecvOutcome::TimedOut);
        assert_eq!(status, StepStatus::Continue);
        assert!(effects.inc_progress);
        assert!(!effects.play_sound);
        assert_eq!(t.remaining_seconds, expected_remaining);
    }
    let (status, effects) = t.step(RecvOutcome::TimedOut);
    assert_eq!(status, StepStatus::Completed);
    assert_eq!(t.remaining_seconds, 0);
    assert!(effects.inc_progress);
    assert!(effects.play_sound);
    assert!(effects.notify_complete);
}

#[test]
fn completion_is_silent_with_sound_disabled() {
    let mut t = SessionTimer::new(1, SessionType::Work, 1, 4, true);
    assert!(!t.sound);
    let (status, effects) = t.step(RecvOutcome::TimedOut);
    assert_eq!(status, StepStatus::Completed);
    assert!(!effects.play_sound);
    assert!(!effects.notify_complete);
}

#[test]
fn ten_seconds_threshold_fires_once_at_ten() {
    let mut t = SessionTimer::new(12, SessionType::Work, 1, 4, false);
    let (_, effects) = t.step(RecvOutcome::TimedOut);
    assert_eq!(t.remaining_seconds, 11);
    assert!(!effects.notify_ten_left);
    let (_, effects) = t.step(RecvOutcome::TimedOut);
    assert_eq!(t.remaining_seconds, 10);
    assert!(effects.notify_ten_left);
    let (_, effects) = t.step(RecvOutcome::TimedOut);
    assert_eq!(t.remaining_seconds, 9);
    assert!(!effects.notify_ten_left);
}

#[test]
fn pause_and_resume_preserve_remaining() {
    // A 25-minute work session: pausing, waiting, and resuming must not
    // consume countdown time.
    let mut t = SessionTimer::new(1500, SessionType::Work, 1, 4, false);
    for _ in 0..5 {
        t.step(RecvOutcome::TimedOut);
    }
    assert_eq!(t.remaining_seconds, 1495);

    let (status, _) = t.step(RecvOutcome::Received(Command::Pause));
    assert_eq!(status, StepStatus::Continue);
    assert!(t.is_paused);
    assert_eq!(t.remaining_seconds, 1495);

    // While paused the timer waits without a bound, so no ticks arrive,
    // however long the wall-clock delay; other commands are ignored.
    for ignored in [Command::Pause, Command::Skip, Command::Reset] {
        let (status, effects) = t.step(RecvOutcome::Received(ignored));
        assert_eq!(status, StepStatus::Continue);
        assert!(t.is_paused);
        assert_eq!(t.remaining_seconds, 1495);
        assert!(!effects.inc_progress);
        assert!(!effects.reset_progress);
    }

    let (status, effects) = t.step(RecvOutcome::Received(Command::Resume));
    assert_eq!(status, StepStatus::Continue);
    assert!(!t.is_paused);
    assert_eq!(t.remaining_seconds, 1495);
    assert!(effects.reset_eta);
}

#[test]
fn pause_resume_toggle_twice_returns_to_running() {
    let mut t = SessionTimer::new(600, SessionType::Work, 2, 4, false);
    t.step(RecvOutcome::TimedOut);
    assert_eq!(t.remaining_seconds, 599);
    t.step(RecvOutcome::Received(Command::PauseResume));
    assert!(t.is_paused);
    t.step(RecvOutcome::Received(Command::PauseResume));
    assert!(!t.is_paused);
    assert_eq!(t.remaining_seconds, 599);
}

#[test]
fn reset_restores_full_duration_and_rewinds_progress() {
    let mut t = SessionTimer::new(300, SessionType::ShortBreak, 1, 4, false);
    for _ in 0..42 {
        t.step(RecvOutcome::TimedOut);
    }
    assert_eq!(t.remaining_seconds, 258);
    let (status, effects) = t.step(RecvOutcome::Received(Command::Reset));
    assert_eq!(status, StepStatus::Continue);
    assert_eq!(t.remaining_seconds, 300);
    assert!(effects.reset_progress);
    assert!(effects.reset_eta);
    assert!(!effects.inc_progress);
}

#[test]
fn skip_aborts_break_without_completion_effects() {
    let mut t = SessionTimer::new(300, SessionType::ShortBreak, 1, 4, false);
    t.step(RecvOutcome::TimedOut);
    let (status, effects) = t.step(RecvOutcome::Received(Command::Skip));
    assert_eq!(status, StepStatus::Skipped);
    assert!(t.remaining_seconds > 0);
    assert_eq!(t.remaining_seconds, 299);
    assert!(!effects.play_sound);
    assert!(!effects.notify_complete);
    assert!(!effects.notify_ten_left);
}

#[test]
fn skip_aborts_long_break_too() {
    let mut t = SessionTimer::new(900, SessionType::LongBreak, 4, 4, false);
    let (status, _) = t.step(RecvOutcome::Received(Command::Skip));
    assert_eq!(status, StepStatus::Skipped);
    assert_eq!(t.remaining_seconds, 900);
}

#[test]
fn skip_is_ignored_during_work() {
    let mut t = SessionTimer::new(1500, SessionType::Work, 1, 4, false);
    let (status, _) = t.step(RecvOutcome::Received(Command::Skip));
    assert_eq!(status, StepStatus::Continue);
    assert_eq!(t.remaining_seconds, 1500);
    assert!(!t.is_paused);
}

#[test]
fn resume_while_running_changes_nothing() {
    let mut t = SessionTimer::new(60, SessionType::Work, 1, 2, false);
    let (status, effects) = t.step(RecvOutcome::Received(Command::Resume));
    assert_eq!(status, StepStatus::Continue);
    assert_eq!(t.remaining_seconds, 60);
    assert!(!t.is_paused);
    assert!(!effects.reset_eta);
}

#[test]
fn disconnect_while_running_fails_with_timeout_kind() {
    let mut t = SessionTimer::new(60, SessionType::Work, 1, 2, false);
    let (status, effects) = t.step(RecvOutcome::Disconnected);
    assert_eq!(status, StepStatus::Failed(AppError::ChannelRecvTimeout));
    assert!(!effects.play_sound);
    assert_eq!(t.remaining_seconds, 60);
}

#[test]
fn disconnect_while_paused_fails_with_blocking_kind() {
    let mut t = SessionTimer::new(60, SessionType::Work, 1, 2, false);
    t.step(RecvOutcome::Received(Command::Pause));
    let (status, _) = t.step(RecvOutcome::Disconnected);
    assert_eq!(status, StepStatus::Failed(AppError::ChannelRecv));
}

#[test]
fn run_completes_after_exactly_duration_ticks() {
    // A session with no commands sent completes after exactly its duration
    // in ticks, and one tick fewer leaves it in progress.
    let mut t = SessionTimer::new(60, SessionType::Work, 1, 2, false);
    let short = vec![RecvOutcome::TimedOut; 59];
    assert_eq!(t.run(&short), StepStatus::Continue);
    assert_eq!(t.remaining_seconds, 1);

    let mut t = SessionTimer::new(60, SessionType::Work, 1, 2, false);
    let exact = vec![RecvOutcome::TimedOut; 60];
    assert_eq!(t.run(&exact), StepStatus::Completed);
    assert_eq!(t.remaining_seconds, 0);
}

#[test]
fn run_stops_at_first_terminal_status() {
    let mut t = SessionTimer::new(300, SessionType::ShortBreak, 1, 4, false);
    let events = vec![
        RecvOutcome::TimedOut,
        RecvOutcome::Received(Command::Skip),
        RecvOutcome::TimedOut,
        RecvOutcome::TimedOut,
    ];
    assert_eq!(t.run(&events), StepStatus::Skipped);
    // The skip aborted the session; the trailing ticks were never taken.
    assert_eq!(t.remaining_seconds, 299);
}

#[test]
fn run_with_no_events_stays_in_progress() {
    let mut t = SessionTimer::new(60, SessionType::Work, 1, 2, false);
    assert_eq!(t.run(&Vec::new()), StepStatus::Continue);
    assert_eq!(t.remaining_seconds, 60);
}

#[test]
fn run_replays_a_mixed_session() {
    let mut t = SessionTimer::new(4, SessionType::Work, 1, 1, false);
    let events = vec![
        RecvOutcome::TimedOut,                            // 3 left
        RecvOutcome::Received(Command::Pause),            // paused
        RecvOutcome::Received(Command::Skip),             // ignored while paused
        RecvOutcome::Received(Command::Resume),           // running, still 3
        RecvOutcome::TimedOut,                            // 2 left
        RecvOutcome::Received(Command::Reset),            // back to 4
        RecvOutcome::TimedOut,                            // 3 left
        RecvOutcome::TimedOut,                            // 2 left
        RecvOutcome::TimedOut,                            // 1 left
        RecvOutcome::TimedOut,                            // 0: completed
    ];
    assert_eq!(t.run(&events), StepStatus::Completed);
    assert_eq!(t.remaining_seconds, 0);
}

#[test]
fn ten_seconds_threshold_does_not_refire_while_paused() {
    let mut t = SessionTimer::new(11, SessionType::Work, 1, 4, false);
    let (_, effects) = t.step(RecvOutcome::TimedOut);
    assert_eq!(t.remaining_seconds, 10);
    assert!(effects.notify_ten_left);
    t.step(RecvOutcome::Received(Command::Pause));
    let (_, effects) = t.step(RecvOutcome::Received(Command::Skip));
    assert!(!effects.notify_ten_left);
    let (_, effects) = t.step(RecvOutcome::Received(Command::Resume));
    assert!(!effects.notify_ten_left);
}

#[test]
fn completion_messages_are_fixed() {
    assert_eq!(
        SessionType::Work.completion_message(),
        "Work session is over. Time for a break!"
    );
    assert_eq!(
        SessionType::ShortBreak.completion_message(),
        "Break is over. Time to focus!"
    );
    assert_eq!(
        SessionType::LongBreak.completion_message(),
        "Break is over. Time to focus!"
    );
}

#[test]
fn session_labels_are_fixed() {
    assert_eq!(SessionType::Work.label(), "Work session");
    assert_eq!(SessionType::ShortBreak.label(), "Short break");
    assert_eq!(SessionType::LongBreak.label(), "Long break");
}

#[test]
fn only_breaks_are_skippable() {
    assert!(!SessionType::Work.skippable());
    assert!(SessionType::ShortBreak.skippable());
    assert!(SessionType::LongBreak.skippable());
}
