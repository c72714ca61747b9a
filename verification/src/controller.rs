//! The session controller: sequences work and break sessions into
//! repeating cycles and aggregates the completed-work count.
//!
//! One cycle is a work session followed by a break — the long break after
//! the last cycle of a pass, the short break otherwise. After the last
//! cycle's break the sequence starts over from cycle one; the run has no
//! natural end. A session that fails (broken channel) stops the
//! sequencing; a session that crashes without reporting an outcome is
//! treated as a recoverable anomaly and the schedule moves on.

use vstd::prelude::*;

use crate::session_timer::{SessionTimer, StepStatus};
use crate::types::{AppError, SessionType};

verus! {

/// How one finished session ended, as the controller sees it.
#[derive(Debug, Clone, Copy, PartialEq, Eq, Structural)]
pub enum SessionOutcome {
    /// The countdown reached zero.
    Completed,
    /// A break was skipped.
    Skipped,
    /// The command channel broke; the controller stops sequencing.
    Failed(AppError),
    /// The session ended abnormally without reporting an outcome; logged
    /// and treated as recoverable, the schedule moves on.
    Crashed,
}

/// The controller's state: the fixed cycle configuration, the position in
/// the schedule, and the process-wide completed-work-session count.
#[derive(Debug, Clone, Copy, PartialEq, Eq, Structural)]
pub struct Controller {
    /// Length of a work session in seconds.
    pub work_secs: u64,
    /// Length of a short break in seconds.
    pub short_break_secs: u64,
    /// Length of a long break in seconds.
    pub long_break_secs: u64,
    /// Number of cycles in one pass of the schedule; at least one.
    pub total_cycles: u64,
    /// The cycle now in progress, between one and `total_cycles`.
    pub current_cycle: u64,
    /// Whether the break of the current cycle is the session in progress
    /// (the work session of the cycle comes first).
    pub on_break: bool,
    /// How many work sessions have run to completion, over the whole run.
    pub completed_work_sessions: u64,
}

/// The kind of session the controller schedules next: the cycle's work
/// session first, then its break — the long one on the pass's last cycle.
pub open spec fn spec_session_type(c: Controller) -> SessionType {
    if !c.on_break {
        SessionType::Work
    } else if c.current_cycle == c.total_cycles {
        SessionType::LongBreak
    } else {
        SessionType::ShortBreak
    }
}

/// The length in seconds of the session the controller schedules next.
pub open spec fn spec_session_duration(c: Controller) -> u64 {
    match spec_session_type(c) {
        SessionType::Work => c.work_secs,
        SessionType::ShortBreak => c.short_break_secs,
        SessionType::LongBreak => c.long_break_secs,
    }
}

/// Whether the controller schedules another session after this outcome:
/// it stops only on a failed session.
pub open spec fn spec_should_continue(outcome: SessionOutcome) -> bool {
    !(outcome is Failed)
}

/// The controller state after a session ends. A failure changes nothing
/// (the controller stops). Otherwise the schedule advances — work to
/// break, break to the next cycle's work, wrapping to cycle one after the
/// last — and the completed-work count grows by one exactly when the
/// finished session was a work session that completed.
pub open spec fn spec_advance(c: Controller, outcome: SessionOutcome) -> Controller {
    if outcome is Failed {
        c
    } else {
        let counted = if !c.on_break && outcome is Completed {
            (c.completed_work_sessions + 1) as u64
        } else {
            c.completed_work_sessions
        };
        if !c.on_break {
            Controller { on_break: true, completed_work_sessions: counted, ..c }
        } else {
            Controller {
                on_break: false,
                current_cycle: if c.current_cycle == c.total_cycles {
                    1u64
                } else {
                    (c.current_cycle + 1) as u64
                },
                completed_work_sessions: counted,
                ..c
            }
        }
    }
}

impl Controller {
    /// The controller's internal invariant: the cycle position stays
    /// between one and the configured cycle count.
    pub open spec fn wf(self) -> bool {
        1 <= self.current_cycle <= self.total_cycles
    }

    /// Set up a schedule: cycle one, its work session first, nothing
    /// completed yet.
    pub fn new(
        work_secs: u64,
        short_break_secs: u64,
        long_break_secs: u64,
        total_cycles: u64,
    ) -> (r: Controller)
        requires
            total_cycles >= 1,
        ensures
            r == (Controller {
                work_secs,
                short_break_secs,
                long_break_secs,
                total_cycles,
                current_cycle: 1u64,
                on_break: false,
                completed_work_sessions: 0u64,
            }),
            r.wf(),
    {
        Controller {
            work_secs,
            short_break_secs,
            long_break_secs,
            total_cycles,
            current_cycle: 1,
            on_break: false,
            completed_work_sessions: 0,
        }
    }

    /// The kind of session scheduled next.
    pub fn session_type(&self) -> (r: SessionType)
        ensures
            r == spec_session_type(*self),
    {
        if !self.on_break {
            SessionType::Work
        } else if self.current_cycle == self.total_cycles {
            SessionType::LongBreak
        } else {
            SessionType::ShortBreak
        }
    }

    /// The length in seconds of the session scheduled next.
    pub fn session_duration_secs(&self) -> (r: u64)
        ensures
            r == spec_session_duration(*self),
    {
        if !self.on_break {
            self.work_secs
        } else if self.current_cycle == self.total_cycles {
            self.long_break_secs
        } else {
            self.short_break_secs
        }
    }

    /// Build the timer state for the session scheduled next.
    pub fn make_timer(&self, no_sound: bool) -> (r: SessionTimer)
        ensures
            r == (SessionTimer {
                duration: spec_session_duration(*self),
                remaining_seconds: spec_session_duration(*self),
                is_paused: false,
                session: spec_session_type(*self),
                current_cycle: self.current_cycle,
                total_cycles: self.total_cycles,
                sound: !no_sound,
            }),
            r.wf(),
    {
        SessionTimer::new(
            self.session_duration_secs(),
            self.session_type(),
            self.current_cycle,
            self.total_cycles,
            no_sound,
        )
    }

    /// Record how the session that just ran ended and move the schedule
    /// forward, exactly as [`spec_advance`] describes.
    pub fn advance(&mut self, outcome: SessionOutcome)
        requires
            old(self).wf(),
            !old(self).on_break && outcome is Completed
                ==> old(self).completed_work_sessions < u64::MAX,
        ensures
            *final(self) == spec_advance(*old(self), outcome),
            final(self).wf(),
    {
        if matches!(outcome, SessionOutcome::Failed(_)) {
            return;
        }
        if !self.on_break && matches!(outcome, SessionOutcome::Completed) {
            self.completed_work_sessions = self.completed_work_sessions + 1;
        }
        if !self.on_break {
            self.on_break = true;
        } else {
            self.on_break = false;
            self.current_cycle = if self.current_cycle == self.total_cycles {
                1
            } else {
                self.current_cycle + 1
            };
        }
    }

    /// Whether another session should be scheduled after this outcome.
    pub fn should_continue(&self, outcome: SessionOutcome) -> (r: bool)
        ensures
            r == spec_should_continue(outcome),
    {
        !matches!(outcome, SessionOutcome::Failed(_))
    }
}

/// The finished-session outcome a timer status denotes; nothing while the
/// session is still in progress.
pub fn outcome_of_status(status: StepStatus) -> (r: Option<SessionOutcome>)
    ensures
        status is Continue <==> r is None,
        status is Completed ==> r == Some(SessionOutcome::Completed),
        status is Skipped ==> r == Some(SessionOutcome::Skipped),
        status matches StepStatus::Failed(e) ==> r == Some(SessionOutcome::Failed(e)),
{
    match status {
        StepStatus::Continue => None,
        StepStatus::Completed => Some(SessionOutcome::Completed),
        StepStatus::Skipped => Some(SessionOutcome::Skipped),
        StepStatus::Failed(e) => Some(SessionOutcome::Failed(e)),
    }
}

/// Convert whole minutes of configuration into seconds of countdown.
pub fn minutes_to_seconds(minutes: u64) -> (r: u64)
    requires
        minutes * 60 <= u64::MAX,
    ensures
        r == minutes * 60,
{
    minutes * 60
}

/// Total focused minutes for the shutdown summary: completed work
/// sessions times the configured work length.
pub fn total_work_minutes(completed_work_sessions: u64, work_minutes: u64) -> (r: u64)
    requires
        completed_work_sessions * work_minutes <= u64::MAX,
    ensures
        r == completed_work_sessions * work_minutes,
{
    completed_work_sessions * work_minutes
}

/// The completed-work counter moves by exactly one for each work session
/// that runs to completion, and by zero for every other ending — in
/// particular for every break session, whatever its outcome.
pub proof fn lemma_counter_counts_completed_work(c: Controller, outcome: SessionOutcome)
    requires
        c.completed_work_sessions < u64::MAX,
    ensures
        !c.on_break && outcome is Completed
            ==> spec_advance(c, outcome).completed_work_sessions
                == c.completed_work_sessions + 1,
        !(!c.on_break && outcome is Completed)
            ==> spec_advance(c, outcome).completed_work_sessions
                == c.completed_work_sessions,
{
}

/// A failed session stops the sequencing: the controller schedules no
/// further session and its state — cycle position and completed-work
/// count — is left exactly as it was.
pub proof fn lemma_failure_stops_sequencing(c: Controller, e: AppError)
    ensures
        !spec_should_continue(SessionOutcome::Failed(e)),
        spec_advance(c, SessionOutcome::Failed(e)) == c,
{
}

} // verus!
