//! The session timer: one countdown (work or break) that ticks once per
//! second while staying responsive to user commands.
//!
//! The timer is a state machine. Each iteration of a session the front end
//! waits on the command channel — with a one-second bound while running
//! (the bound doubling as the tick), indefinitely while paused — and hands
//! the outcome of that wait to [`SessionTimer::step`], which returns the
//! session's status together with the side effects (progress display,
//! notifications, sound) the front end must perform. [`SessionTimer::run`]
//! drives `step` over a whole sequence of outcomes.

use vstd::prelude::*;

use crate::types::{AppError, Command, SessionType};

verus! {

/// What one wait on the command channel produced.
#[derive(Debug, Clone, Copy, PartialEq, Eq, Structural)]
pub enum RecvOutcome {
    /// A command arrived.
    Received(Command),
    /// The bounded wait elapsed with no command: one tick of countdown.
    /// Only the running state waits with a bound, so a paused timer never
    /// observes this outcome; it ignores it if handed one anyway.
    TimedOut,
    /// The channel is closed: the producer is gone, fatal for the run.
    Disconnected,
}

/// The side effects one step asks the front end to perform.
#[derive(Debug, Clone, Copy, PartialEq, Eq, Structural)]
pub struct StepEffects {
    /// Advance the visible progress indicator by one tick.
    pub inc_progress: bool,
    /// Move the visible progress indicator back to zero elapsed.
    pub reset_progress: bool,
    /// Restart the progress indicator's elapsed-time estimate.
    pub reset_eta: bool,
    /// Announce that exactly ten seconds remain.
    pub notify_ten_left: bool,
    /// Play the completion tone.
    pub play_sound: bool,
    /// Send the completion notification.
    pub notify_complete: bool,
}

/// The session's status after a step.
#[derive(Debug, Clone, Copy, PartialEq, Eq, Structural)]
pub enum StepStatus {
    /// The session is still in progress (running or paused).
    Continue,
    /// The countdown reached zero.
    Completed,
    /// A `Skip` command aborted a break session early.
    Skipped,
    /// The command channel broke; fatal for the whole run.
    Failed(AppError),
}

/// The state of one countdown session.
///
/// `duration` is fixed at construction; `remaining_seconds` counts down
/// from it one tick at a time and may be reset back to it. The cycle
/// position is carried for display only.
#[derive(Debug, Clone, Copy, PartialEq, Eq, Structural)]
pub struct SessionTimer {
    /// Total length of the session in seconds, fixed at construction.
    pub duration: u64,
    /// Seconds still to count down; never exceeds `duration`.
    pub remaining_seconds: u64,
    /// Whether the timer is paused (waiting indefinitely for a command).
    pub is_paused: bool,
    /// The kind of interval being counted.
    pub session: SessionType,
    /// Position of this session within the cycle sequence, for display.
    pub current_cycle: u64,
    /// Total number of cycles configured, for display.
    pub total_cycles: u64,
    /// Whether the completion tone and notification are enabled.
    pub sound: bool,
}

/// The step effects with nothing requested.
pub open spec fn no_effects() -> StepEffects {
    StepEffects {
        inc_progress: false,
        reset_progress: false,
        reset_eta: false,
        notify_ten_left: false,
        play_sound: false,
        notify_complete: false,
    }
}

/// One transition of the session state machine: from the timer state `t`
/// and the outcome `ev` of one wait on the channel, the new state, the
/// session's status, and the side effects owed.
///
/// While running: a tick decrements the countdown (announcing the
/// ten-seconds-left threshold on the tick that lands on ten, and completing
/// with the sound and notification — if sound is enabled — on the tick that
/// lands on zero); `Pause` and `PauseResume` pause; `Reset` restores the
/// full duration and rewinds the progress display; `Skip` aborts a break
/// and is ignored during work; `Resume` is a no-op; a closed channel fails
/// the session. While paused: `Resume` and `PauseResume` resume with a
/// fresh time estimate, every other command is ignored, and a closed
/// channel fails the session. Pausing never consumes countdown time.
pub open spec fn spec_step(t: SessionTimer, ev: RecvOutcome) -> (SessionTimer, StepStatus, StepEffects)
    recommends
        t.remaining_seconds > 0,
{
    if t.is_paused {
        match ev {
            RecvOutcome::Received(cmd) => match cmd {
                Command::Resume => (
                    SessionTimer { is_paused: false, ..t },
                    StepStatus::Continue,
                    StepEffects { reset_eta: true, ..no_effects() },
                ),
                Command::PauseResume => (
                    SessionTimer { is_paused: false, ..t },
                    StepStatus::Continue,
                    StepEffects { reset_eta: true, ..no_effects() },
                ),
                _ => (t, StepStatus::Continue, no_effects()),
            },
            RecvOutcome::TimedOut => (t, StepStatus::Continue, no_effects()),
            RecvOutcome::Disconnected => (
                t,
                StepStatus::Failed(AppError::ChannelRecv),
                no_effects(),
            ),
        }
    } else {
        match ev {
            RecvOutcome::TimedOut => {
                let rem = (t.remaining_seconds - 1) as u64;
                let ticked = SessionTimer { remaining_seconds: rem, ..t };
                if rem == 0 {
                    (
                        ticked,
                        StepStatus::Completed,
                        StepEffects {
                            inc_progress: true,
                            play_sound: t.sound,
                            notify_complete: t.sound,
                            ..no_effects()
                        },
                    )
                } else {
                    (
                        ticked,
                        StepStatus::Continue,
                        StepEffects {
                            inc_progress: true,
                            notify_ten_left: rem == 10,
                            ..no_effects()
                        },
                    )
                }
            },
            RecvOutcome::Received(cmd) => match cmd {
                Command::Pause => (
                    SessionTimer { is_paused: true, ..t },
                    StepStatus::Continue,
                    no_effects(),
                ),
                Command::PauseResume => (
                    SessionTimer { is_paused: true, ..t },
                    StepStatus::Continue,
                    no_effects(),
                ),
                Command::Reset => (
                    SessionTimer { remaining_seconds: t.duration, ..t },
                    StepStatus::Continue,
                    StepEffects { reset_progress: true, reset_eta: true, ..no_effects() },
                ),
                Command::Skip => if t.session is Work {
                    (t, StepStatus::Continue, no_effects())
                } else {
                    (t, StepStatus::Skipped, no_effects())
                },
                Command::Resume => (t, StepStatus::Continue, no_effects()),
            },
            RecvOutcome::Disconnected => (
                t,
                StepStatus::Failed(AppError::ChannelRecvTimeout),
                no_effects(),
            ),
        }
    }
}

/// The result of driving the machine over a sequence of wait outcomes,
/// starting each iteration only while the countdown is positive: the final
/// timer state and the session's status. `Continue` means the sequence ran
/// out while the session was still in progress.
pub open spec fn spec_run(t: SessionTimer, evs: Seq<RecvOutcome>) -> (SessionTimer, StepStatus)
    decreases evs.len(),
{
    if t.remaining_seconds == 0 {
        (t, StepStatus::Completed)
    } else if evs.len() == 0 {
        (t, StepStatus::Continue)
    } else {
        let stepped = spec_step(t, evs[0]);
        if stepped.1 is Continue {
            spec_run(stepped.0, evs.drop_first())
        } else {
            (stepped.0, stepped.1)
        }
    }
}

impl SessionTimer {
    /// The timer's internal invariant: the countdown never exceeds the
    /// session's fixed duration.
    pub open spec fn wf(self) -> bool {
        self.remaining_seconds <= self.duration
    }

    /// Create the state for one session: a running timer with the full
    /// duration still to count.
    pub fn new(
        duration_secs: u64,
        session: SessionType,
        current_cycle: u64,
        total_cycles: u64,
        no_sound: bool,
    ) -> (r: SessionTimer)
        ensures
            r == (SessionTimer {
                duration: duration_secs,
                remaining_seconds: duration_secs,
                is_paused: false,
                session: session,
                current_cycle: current_cycle,
                total_cycles: total_cycles,
                sound: !no_sound,
            }),
            r.wf(),
    {
        SessionTimer {
            duration: duration_secs,
            remaining_seconds: duration_secs,
            is_paused: false,
            session,
            current_cycle,
            total_cycles,
            sound: !no_sound,
        }
    }

    /// Whether the countdown has reached zero.
    pub fn finished(&self) -> (r: bool)
        ensures
            r == (self.remaining_seconds == 0),
    {
        self.remaining_seconds == 0
    }

    /// React to the outcome of one wait on the command channel: update the
    /// timer state and report the session's status and the side effects the
    /// front end owes, exactly as [`spec_step`] describes.
    pub fn step(&mut self, ev: RecvOutcome) -> (r: (StepStatus, StepEffects))
        requires
            old(self).wf(),
            old(self).remaining_seconds > 0,
        ensures
            (*final(self), r.0, r.1) == spec_step(*old(self), ev),
            final(self).wf(),
    {
        if self.is_paused {
            match ev {
                RecvOutcome::Received(cmd) => match cmd {
                    Command::Resume | Command::PauseResume => {
                        self.is_paused = false;
                        (
                            StepStatus::Continue,
                            StepEffects { reset_eta: true, ..no_effects_exec() },
                        )
                    },
                    _ => (StepStatus::Continue, no_effects_exec()),
                },
                RecvOutcome::TimedOut => (StepStatus::Continue, no_effects_exec()),
                RecvOutcome::Disconnected => (
                    StepStatus::Failed(AppError::ChannelRecv),
                    no_effects_exec(),
                ),
            }
        } else {
            match ev {
                RecvOutcome::TimedOut => {
                    self.remaining_seconds = self.remaining_seconds - 1;
                    if self.remaining_seconds == 0 {
                        (
                            StepStatus::Completed,
                            StepEffects {
                                inc_progress: true,
                                play_sound: self.sound,
                                notify_complete: self.sound,
                                ..no_effects_exec()
                            },
                        )
                    } else {
                        (
                            StepStatus::Continue,
                            StepEffects {
                                inc_progress: true,
                                notify_ten_left: self.remaining_seconds == 10,
                                ..no_effects_exec()
                            },
                        )
                    }
                },
                RecvOutcome::Received(cmd) => match cmd {
                    Command::Pause | Command::PauseResume => {
                        self.is_paused = true;
                        (StepStatus::Continue, no_effects_exec())
                    },
                    Command::Reset => {
                        self.remaining_seconds = self.duration;
                        (
                            StepStatus::Continue,
                            StepEffects {
                                reset_progress: true,
                                reset_eta: true,
                                ..no_effects_exec()
                            },
                        )
                    },
                    Command::Skip => {
                        if self.session.skippable() {
                            (StepStatus::Skipped, no_effects_exec())
                        } else {
                            (StepStatus::Continue, no_effects_exec())
                        }
                    },
                    Command::Resume => (StepStatus::Continue, no_effects_exec()),
                },
                RecvOutcome::Disconnected => (
                    StepStatus::Failed(AppError::ChannelRecvTimeout),
                    no_effects_exec(),
                ),
            }
        }
    }

    /// Drive the state machine over a whole sequence of wait outcomes,
    /// stopping at the first terminal status, exactly as [`spec_run`]
    /// describes. `Continue` means the sequence ran out first.
    pub fn run(&mut self, events: &Vec<RecvOutcome>) -> (r: StepStatus)
        requires
            old(self).wf(),
        ensures
            (*final(self), r) == spec_run(*old(self), events@),
            final(self).wf(),
    {
        let mut i: usize = 0;
        proof {
            assert(events@.skip(0) =~= events@);
        }
        loop
            invariant
                i <= events.len(),
                self.wf(),
                spec_run(*old(self), events@) == spec_run(*self, events@.skip(i as int)),
            decreases events.len() - i,
        {
            if self.finished() {
                return StepStatus::Completed;
            }
            if i == events.len() {
                proof {
                    assert(events@.skip(i as int) =~= Seq::<RecvOutcome>::empty());
                }
                return StepStatus::Continue;
            }
            let ev = events[i];
            let stepped = self.step(ev);
            i = i + 1;
            proof {
                assert(events@.skip((i - 1) as int).drop_first() =~= events@.skip(i as int));
                assert(events@.skip((i - 1) as int)[0] == ev);
            }
            match stepped.0 {
                StepStatus::Continue => {},
                _ => {
                    return stepped.0;
                },
            }
        }
    }
}

/// Whether every outcome in a sequence is a tick (no command arrived).
pub open spec fn all_ticks(evs: Seq<RecvOutcome>) -> bool {
    forall|i: int| 0 <= i < evs.len() ==> evs[i] == RecvOutcome::TimedOut
}

/// Whether an outcome is one the paused state ignores: any received
/// command other than `Resume` or `PauseResume`.
pub open spec fn ignored_while_paused(ev: RecvOutcome) -> bool {
    ev matches RecvOutcome::Received(c) && !(c is Resume) && !(c is PauseResume)
}

/// With no commands sent, a running session counts down one second per
/// tick and completes after exactly `remaining_seconds` ticks: fewer ticks
/// leave it still in progress having consumed exactly that many seconds,
/// and that many ticks complete it.
pub proof fn lemma_ticks_only_counts_down(t: SessionTimer, evs: Seq<RecvOutcome>)
    requires
        !t.is_paused,
        t.remaining_seconds > 0,
        all_ticks(evs),
        evs.len() <= t.remaining_seconds,
    ensures
        evs.len() < t.remaining_seconds ==> spec_run(t, evs) == ((
            SessionTimer { remaining_seconds: (t.remaining_seconds - evs.len()) as u64, ..t },
            StepStatus::Continue,
        )),
        evs.len() == t.remaining_seconds ==> spec_run(t, evs) == ((
            SessionTimer { remaining_seconds: 0u64, ..t },
            StepStatus::Completed,
        )),
    decreases evs.len(),
{
    if evs.len() == 0 {
        assert(spec_run(t, evs) == (t, StepStatus::Continue));
        assert(SessionTimer { remaining_seconds: (t.remaining_seconds - 0) as u64, ..t } == t);
    } else {
        assert(evs[0] == RecvOutcome::TimedOut);
        let stepped = spec_step(t, evs[0]);
        if t.remaining_seconds == 1 {
            assert(stepped.1 is Completed);
        } else {
            let rest = evs.drop_first();
            assert forall|i: int| 0 <= i < rest.len() implies rest[i] == RecvOutcome::TimedOut by {
                assert(evs[i + 1] == RecvOutcome::TimedOut);
            }
            lemma_ticks_only_counts_down(stepped.0, rest);
        }
    }
}

/// Pausing does not consume countdown time: from any running state, a
/// pause command, then any commands the paused state ignores, then a
/// resume command leave the timer exactly as it was — still in progress,
/// with `remaining_seconds` unchanged from the moment pause was issued.
/// A paused timer receives no ticks (it waits without a bound), so no
/// amount of wall-clock delay between pause and resume changes this.
pub proof fn lemma_pause_then_resume_keeps_remaining(
    t: SessionTimer,
    pause_cmd: Command,
    mid: Seq<RecvOutcome>,
    resume_cmd: Command,
)
    requires
        !t.is_paused,
        t.remaining_seconds > 0,
        pause_cmd == Command::Pause || pause_cmd == Command::PauseResume,
        resume_cmd == Command::Resume || resume_cmd == Command::PauseResume,
        forall|i: int| 0 <= i < mid.len() ==> ignored_while_paused(mid[i]),
    ensures
        spec_run(
            t,
            seq![RecvOutcome::Received(pause_cmd)] + mid + seq![RecvOutcome::Received(resume_cmd)],
        ) == ((t, StepStatus::Continue)),
{
    let tail = seq![RecvOutcome::Received(resume_cmd)];
    let evs = seq![RecvOutcome::Received(pause_cmd)] + mid + tail;
    assert(evs[0] == RecvOutcome::Received(pause_cmd));
    let paused = SessionTimer { is_paused: true, ..t };
    assert(spec_step(t, evs[0]) == (paused, StepStatus::Continue, no_effects()));
    assert(evs.drop_first() =~= mid + tail);
    assert(spec_run(t, evs) == spec_run(paused, mid + tail));
    lemma_paused_ignores(paused, mid, tail);
    assert(tail[0] == RecvOutcome::Received(resume_cmd));
    assert(spec_step(paused, tail[0]).0 == t);
    assert(spec_step(paused, tail[0]).1 is Continue);
    assert(tail.drop_first() =~= Seq::<RecvOutcome>::empty());
    assert(spec_run(paused, tail) == spec_run(t, Seq::<RecvOutcome>::empty()));
    assert(spec_run(t, Seq::<RecvOutcome>::empty()) == (t, StepStatus::Continue));
}

/// While paused, commands other than resume are ignored: running the
/// machine over them changes nothing, and whatever follows them plays out
/// as if they had never arrived.
pub proof fn lemma_paused_ignores(p: SessionTimer, mid: Seq<RecvOutcome>, rest: Seq<RecvOutcome>)
    requires
        p.is_paused,
        p.remaining_seconds > 0,
        forall|i: int| 0 <= i < mid.len() ==> ignored_while_paused(mid[i]),
    ensures
        spec_run(p, mid + rest) == spec_run(p, rest),
    decreases mid.len(),
{
    if mid.len() == 0 {
        assert(mid + rest =~= rest);
    } else {
        let evs = mid + rest;
        assert(evs[0] == mid[0]);
        assert(ignored_while_paused(mid[0]));
        assert(spec_step(p, evs[0]) == (p, StepStatus::Continue, no_effects()));
        assert(evs.drop_first() =~= mid.drop_first() + rest);
        let mid2 = mid.drop_first();
        assert forall|i: int| 0 <= i < mid2.len() implies ignored_while_paused(mid2[i]) by {
            assert(ignored_while_paused(mid[i + 1]));
        }
        lemma_paused_ignores(p, mid2, rest);
    }
}

/// A `Reset` received while running restores the full duration and rewinds
/// the visible progress indicator to zero elapsed; the session stays in
/// progress.
pub proof fn lemma_reset_restores_duration(t: SessionTimer)
    requires
        !t.is_paused,
        t.remaining_seconds > 0,
    ensures
        ({
            let stepped = spec_step(t, RecvOutcome::Received(Command::Reset));
            &&& stepped.0 == (SessionTimer { remaining_seconds: t.duration, ..t })
            &&& stepped.0.remaining_seconds == t.duration
            &&& stepped.1 is Continue
            &&& stepped.2.reset_progress
            &&& stepped.2.reset_eta
        }),
{
}

/// A `Skip` received during a running break session aborts it at once:
/// the countdown is still positive at the abort, and no side effect — in
/// particular neither the completion sound nor any notification — fires.
pub proof fn lemma_skip_aborts_break(t: SessionTimer)
    requires
        !t.is_paused,
        t.remaining_seconds > 0,
        !(t.session is Work),
    ensures
        ({
            let stepped = spec_step(t, RecvOutcome::Received(Command::Skip));
            &&& stepped.1 is Skipped
            &&& stepped.0 == t
            &&& stepped.0.remaining_seconds > 0
            &&& stepped.2 == no_effects()
        }),
{
}

/// A closed channel observed in either the running or the paused state
/// fails the session immediately — with the error kind matching the kind
/// of wait — and nothing that might follow on the channel is looked at.
pub proof fn lemma_disconnect_fails(t: SessionTimer, rest: Seq<RecvOutcome>)
    requires
        t.remaining_seconds > 0,
    ensures
        ({
            let r = spec_run(t, seq![RecvOutcome::Disconnected] + rest);
            &&& r.0 == t
            &&& r.1 == StepStatus::Failed(
                if t.is_paused {
                    AppError::ChannelRecv
                } else {
                    AppError::ChannelRecvTimeout
                },
            )
        }),
{
    let evs = seq![RecvOutcome::Disconnected] + rest;
    assert(evs[0] == RecvOutcome::Disconnected);
    assert(evs.len() > 0);
}

/// The step effects with nothing requested, as a value.
fn no_effects_exec() -> (r: StepEffects)
    ensures
        r == no_effects(),
{
    StepEffects {
        inc_progress: false,
        reset_progress: false,
        reset_eta: false,
        notify_ten_left: false,
        play_sound: false,
        notify_complete: false,
    }
}

} // verus!
