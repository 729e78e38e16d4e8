use vstd::prelude::*;
use vstd::string::*;

use crate::models::{StepKind, TimerMode, TimerStatus};

verus! {

/// Everything the frontend renders of the timer at one instant.
#[derive(Clone, Debug)]
pub struct TimerSnapshot {
    pub session_id: Option<String>,
    pub mode: Option<TimerMode>,
    pub status: TimerStatus,
    pub current_step: Option<TimerSnapshotStep>,
    pub next_step: Option<TimerSnapshotStep>,
    pub cta: TimerSnapshotCta,
    pub cycle: Option<TimerSnapshotCycle>,
    pub started_at_ms: Option<i64>,
    pub current_interval_started_at_ms: Option<i64>,
    pub now_ms: i64,
    pub remaining_ms: i64,
    pub total_focus_elapsed_ms: i64,
    pub total_focus_target_ms: i64,
    pub active_kind_elapsed_ms: i64,
}

/// A step as shown in a snapshot.
#[derive(Clone, Debug)]
pub struct TimerSnapshotStep {
    pub id: String,
    pub kind: StepKind,
    pub index: u32,
    pub planned_ms: i64,
    pub actual_ms: i64,
}

/// Progress of the focus/break cycle as shown in a snapshot.
#[derive(Clone, Copy, Debug, PartialEq, Eq, Structural)]
pub struct TimerSnapshotCycle {
    pub focus_ms: i64,
    pub break_ms: i64,
    pub total_focus_target_ms: i64,
    pub completed_focus_ms: i64,
    pub completed_steps: u32,
}

/// The call to action offered to the user.
#[derive(Clone, Debug)]
pub struct TimerSnapshotCta {
    pub kind: TimerSnapshotCtaKind,
    pub label: String,
}

/// What the primary button of the timer does.
#[derive(Clone, Copy, Debug, PartialEq, Eq, Structural)]
pub enum TimerSnapshotCtaKind {
    StartCycle,
    Pause,
    Resume,
    StartBreak,
    StartFocus,
    Restart,
}

/// The label shown for the call to action of a status, given the kind of
/// step that would come next.
pub open spec fn cta_label(kind: TimerSnapshotCtaKind) -> Seq<char> {
    match kind {
        TimerSnapshotCtaKind::StartCycle => "Start focus"@,
        TimerSnapshotCtaKind::Pause => "Pause"@,
        TimerSnapshotCtaKind::Resume => "Resume"@,
        TimerSnapshotCtaKind::StartBreak => "Start break"@,
        TimerSnapshotCtaKind::StartFocus => "Start focus"@,
        TimerSnapshotCtaKind::Restart => "Restart"@,
    }
}

/// The kind of call to action for a status and the step that would come next.
pub open spec fn cta_kind(status: TimerStatus, next_kind: Option<StepKind>) -> TimerSnapshotCtaKind {
    match status {
        TimerStatus::Running => TimerSnapshotCtaKind::Pause,
        TimerStatus::Paused => TimerSnapshotCtaKind::Resume,
        TimerStatus::AwaitingContinue => match next_kind {
            Some(StepKind::ShortBreak) => TimerSnapshotCtaKind::StartBreak,
            Some(StepKind::Focus) => TimerSnapshotCtaKind::StartFocus,
            None => TimerSnapshotCtaKind::Restart,
        },
        TimerStatus::Completed => TimerSnapshotCtaKind::Restart,
        TimerStatus::Idle => TimerSnapshotCtaKind::StartCycle,
    }
}

/// The call to action whose kind is `kind`, with its label.
pub fn cta_of_kind(kind: TimerSnapshotCtaKind) -> (cta: TimerSnapshotCta)
    ensures
        cta.kind == kind,
        cta.label@ == cta_label(kind),
{
    let label = match kind {
        TimerSnapshotCtaKind::StartCycle => String::from_str("Start focus"),
        TimerSnapshotCtaKind::Pause => String::from_str("Pause"),
        TimerSnapshotCtaKind::Resume => String::from_str("Resume"),
        TimerSnapshotCtaKind::StartBreak => String::from_str("Start break"),
        TimerSnapshotCtaKind::StartFocus => String::from_str("Start focus"),
        TimerSnapshotCtaKind::Restart => String::from_str("Restart"),
    };
    TimerSnapshotCta { kind, label }
}

/// The call to action for a status, given the kind of step that would come next.
pub fn cta_for_status(status: &TimerStatus, next_kind: Option<StepKind>) -> (cta: TimerSnapshotCta)
    ensures
        cta.kind == cta_kind(*status, next_kind),
        cta.label@ == cta_label(cta_kind(*status, next_kind)),
{
    let kind = match status {
        TimerStatus::Running => TimerSnapshotCtaKind::Pause,
        TimerStatus::Paused => TimerSnapshotCtaKind::Resume,
        TimerStatus::AwaitingContinue => match next_kind {
            Some(StepKind::ShortBreak) => TimerSnapshotCtaKind::StartBreak,
            Some(StepKind::Focus) => TimerSnapshotCtaKind::StartFocus,
            None => TimerSnapshotCtaKind::Restart,
        },
        TimerStatus::Completed => TimerSnapshotCtaKind::Restart,
        TimerStatus::Idle => TimerSnapshotCtaKind::StartCycle,
    };
    cta_of_kind(kind)
}

/// The snapshot of a timer with no session at the instant `now_ms`.
pub open spec fn is_idle_snapshot(s: TimerSnapshot, now_ms: i64) -> bool {
    &&& s.session_id is None
    &&& s.mode is None
    &&& s.status == TimerStatus::Idle
    &&& s.current_step is None
    &&& s.next_step is None
    &&& s.cta.kind == TimerSnapshotCtaKind::StartCycle
    &&& s.cta.label@ == "Start focus"@
    &&& s.cycle is None
    &&& s.started_at_ms is None
    &&& s.current_interval_started_at_ms is None
    &&& s.now_ms == now_ms
    &&& s.remaining_ms == 0
    &&& s.total_focus_elapsed_ms == 0
    &&& s.total_focus_target_ms == 0
    &&& s.active_kind_elapsed_ms == 0
}

impl TimerSnapshot {
    /// The snapshot of a timer with no session.
    pub fn idle(now_ms: i64) -> (s: Self)
        ensures
            is_idle_snapshot(s, now_ms),
    {
        TimerSnapshot {
            session_id: None,
            mode: None,
            status: TimerStatus::Idle,
            current_step: None,
            next_step: None,
            cta: cta_of_kind(TimerSnapshotCtaKind::StartCycle),
            cycle: None,
            started_at_ms: None,
            current_interval_started_at_ms: None,
            now_ms,
            remaining_ms: 0,
            total_focus_elapsed_ms: 0,
            total_focus_target_ms: 0,
            active_kind_elapsed_ms: 0,
        }
    }
}

} // verus!
