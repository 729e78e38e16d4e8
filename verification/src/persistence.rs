use vstd::prelude::*;

use crate::models::{Session, SessionStep, StepKind, StepStatus, TimeInterval, TimerMode, TimerStatus};

verus! {

/// The status a step is stored with.
#[derive(Clone, Copy, Debug, PartialEq, Eq, Structural)]
pub enum StepPersistenceStatus {
    Pending,
    Running,
    Paused,
    Completed,
    Cancelled,
}

/// Why an interval was closed.
#[derive(Clone, Copy, Debug, PartialEq, Eq, Structural)]
pub enum StopReason {
    Pause,
    Complete,
    Reset,
    Quit,
    AppShutdown,
    StepSwitch,
}

/// One day in milliseconds.
pub const DAY_MS: i64 = 86_400_000;

pub open spec fn step_persistence_text(status: StepPersistenceStatus) -> Seq<char> {
    match status {
        StepPersistenceStatus::Pending => "pending"@,
        StepPersistenceStatus::Running => "running"@,
        StepPersistenceStatus::Paused => "paused"@,
        StepPersistenceStatus::Completed => "completed"@,
        StepPersistenceStatus::Cancelled => "cancelled"@,
    }
}

pub open spec fn stop_reason_text(reason: StopReason) -> Seq<char> {
    match reason {
        StopReason::Pause => "pause"@,
        StopReason::Complete => "complete"@,
        StopReason::Reset => "reset"@,
        StopReason::Quit => "quit"@,
        StopReason::AppShutdown => "app_shutdown"@,
        StopReason::StepSwitch => "step_switch"@,
    }
}

pub open spec fn session_status_text(status: TimerStatus) -> Seq<char> {
    match status {
        TimerStatus::Running => "running"@,
        TimerStatus::Paused => "paused"@,
        TimerStatus::AwaitingContinue => "paused"@,
        TimerStatus::Completed => "completed"@,
        TimerStatus::Idle => "cancelled"@,
    }
}

pub open spec fn step_kind_text(kind: StepKind) -> Seq<char> {
    match kind {
        StepKind::Focus => "focus"@,
        StepKind::ShortBreak => "short_break"@,
    }
}

pub open spec fn interval_kind_text(kind: StepKind) -> Seq<char> {
    match kind {
        StepKind::Focus => "focus"@,
        StepKind::ShortBreak => "break"@,
    }
}

impl StepPersistenceStatus {
    pub fn as_str(self) -> (r: &'static str)
        ensures
            r@ == step_persistence_text(self),
    {
        match self {
            StepPersistenceStatus::Pending => "pending",
            StepPersistenceStatus::Running => "running",
            StepPersistenceStatus::Paused => "paused",
            StepPersistenceStatus::Completed => "completed",
            StepPersistenceStatus::Cancelled => "cancelled",
        }
    }
}

impl StopReason {
    pub fn as_str(self) -> (r: &'static str)
        ensures
            r@ == stop_reason_text(self),
    {
        match self {
            StopReason::Pause => "pause",
            StopReason::Complete => "complete",
            StopReason::Reset => "reset",
            StopReason::Quit => "quit",
            StopReason::AppShutdown => "app_shutdown",
            StopReason::StepSwitch => "step_switch",
        }
    }
}

pub fn timer_mode_value(mode: &TimerMode) -> (r: &'static str)
    ensures
        r@ == "free"@,
{
    match mode {
        TimerMode::Free => "free",
    }
}

/// How a session status is stored: a session waiting for its next step is
/// stored as paused, and one without a session as cancelled.
pub fn session_status_value(status: &TimerStatus) -> (r: &'static str)
    ensures
        r@ == session_status_text(*status),
{
    match status {
        TimerStatus::Running => "running",
        TimerStatus::Paused => "paused",
        TimerStatus::AwaitingContinue => "paused",
        TimerStatus::Completed => "completed",
        TimerStatus::Idle => "cancelled",
    }
}

pub fn step_kind_value(kind: &StepKind) -> (r: &'static str)
    ensures
        r@ == step_kind_text(*kind),
{
    match kind {
        StepKind::Focus => "focus",
        StepKind::ShortBreak => "short_break",
    }
}

pub fn interval_kind_value(kind: &StepKind) -> (r: &'static str)
    ensures
        r@ == interval_kind_text(*kind),
{
    match kind {
        StepKind::Focus => "focus",
        StepKind::ShortBreak => "break",
    }
}

/// The stored status of a step of a given status.
pub open spec fn persisted_status(status: StepStatus) -> StepPersistenceStatus {
    match status {
        StepStatus::Pending => StepPersistenceStatus::Pending,
        StepStatus::Running => StepPersistenceStatus::Running,
        StepStatus::Paused => StepPersistenceStatus::Paused,
        StepStatus::Completed => StepPersistenceStatus::Completed,
        StepStatus::Cancelled => StepPersistenceStatus::Cancelled,
    }
}

pub fn persistence_status_of(status: StepStatus) -> (r: StepPersistenceStatus)
    ensures
        r == persisted_status(status),
{
    match status {
        StepStatus::Pending => StepPersistenceStatus::Pending,
        StepStatus::Running => StepPersistenceStatus::Running,
        StepStatus::Paused => StepPersistenceStatus::Paused,
        StepStatus::Completed => StepPersistenceStatus::Completed,
        StepStatus::Cancelled => StepPersistenceStatus::Cancelled,
    }
}

/// The calendar day (in UTC) that contains `now_ms`: its first millisecond,
/// and the first millisecond of the next day.
pub fn today_window(now_ms: i64) -> (r: (i64, i64))
    requires
        i64::MIN + DAY_MS <= now_ms <= i64::MAX - DAY_MS,
    ensures
        r.0 <= now_ms < r.1,
        r.1 == r.0 + DAY_MS,
        (r.0 as int) % (DAY_MS as int) == 0,
        r.0 == (now_ms as int) - (now_ms as int) % (DAY_MS as int),
{
    let rem = now_ms % DAY_MS;
    let rem_euclid = if rem < 0 { rem + DAY_MS } else { rem };
    let day_start_ms = now_ms - rem_euclid;
    (day_start_ms, day_start_ms + DAY_MS)
}

/// The stored form of a session.
#[derive(Debug)]
pub struct SessionRow {
    pub id: String,
    pub mode: &'static str,
    pub target_focus_ms: i64,
    pub status: &'static str,
    pub started_at_ms: i64,
    pub ended_at_ms: Option<i64>,
    pub updated_at_ms: i64,
}

/// The stored form of a step.
#[derive(Debug)]
pub struct StepRow {
    pub id: String,
    pub session_id: String,
    pub step_index: u32,
    pub kind: &'static str,
    pub planned_ms: i64,
    pub actual_ms: i64,
    pub status: &'static str,
    pub started_at_ms: Option<i64>,
    pub ended_at_ms: Option<i64>,
    pub updated_at_ms: i64,
}

/// The stored form of a newly opened interval.
#[derive(Debug)]
pub struct IntervalOpenRow {
    pub id: String,
    pub session_id: String,
    pub step_id: String,
    pub kind: &'static str,
    pub started_at_ms: i64,
}

/// The stored change that closes an interval.
#[derive(Debug)]
pub struct IntervalCloseRow {
    pub id: String,
    pub ended_at_ms: i64,
    pub elapsed_ms: i64,
    pub stop_reason: &'static str,
}

/// A session as stored: it was last updated when it ended, or else when it started.
pub fn session_row(session: &Session) -> (r: SessionRow)
    ensures
        r.id == session.id,
        r.mode@ == "free"@,
        r.target_focus_ms == session.target_focus_ms,
        r.status@ == session_status_text(session.status),
        r.started_at_ms == session.started_at_ms,
        r.ended_at_ms == session.ended_at_ms,
        r.updated_at_ms == (match session.ended_at_ms {
            Some(ended) => ended,
            None => session.started_at_ms,
        }),
{
    SessionRow {
        id: session.id.clone(),
        mode: timer_mode_value(&session.mode),
        target_focus_ms: session.target_focus_ms,
        status: session_status_value(&session.status),
        started_at_ms: session.started_at_ms,
        ended_at_ms: session.ended_at_ms,
        updated_at_ms: match session.ended_at_ms {
            Some(ended) => ended,
            None => session.started_at_ms,
        },
    }
}

/// A step as stored with the given status and times.
pub fn step_row(
    step: &SessionStep,
    status: StepPersistenceStatus,
    started_at_ms: Option<i64>,
    ended_at_ms: Option<i64>,
    updated_at_ms: i64,
) -> (r: StepRow)
    ensures
        r.id == step.id,
        r.session_id == step.session_id,
        r.step_index == step.index,
        r.kind@ == step_kind_text(step.kind),
        r.planned_ms == step.planned_ms,
        r.actual_ms == step.actual_ms,
        r.status@ == step_persistence_text(status),
        r.started_at_ms == started_at_ms,
        r.ended_at_ms == ended_at_ms,
        r.updated_at_ms == updated_at_ms,
{
    StepRow {
        id: step.id.clone(),
        session_id: step.session_id.clone(),
        step_index: step.index,
        kind: step_kind_value(&step.kind),
        planned_ms: step.planned_ms,
        actual_ms: step.actual_ms,
        status: status.as_str(),
        started_at_ms,
        ended_at_ms,
        updated_at_ms,
    }
}

/// An interval as stored when it opens.
pub fn interval_open_row(interval: &TimeInterval) -> (r: IntervalOpenRow)
    ensures
        r.id == interval.id,
        r.session_id == interval.session_id,
        r.step_id == interval.step_id,
        r.kind@ == interval_kind_text(interval.kind),
        r.started_at_ms == interval.started_at_ms,
{
    IntervalOpenRow {
        id: interval.id.clone(),
        session_id: interval.session_id.clone(),
        step_id: interval.step_id.clone(),
        kind: interval_kind_value(&interval.kind),
        started_at_ms: interval.started_at_ms,
    }
}

/// The change that closes an interval, or nothing when the interval has not ended.
pub fn interval_close_row(interval: &TimeInterval, stop_reason: StopReason) -> (r: Option<IntervalCloseRow>)
    ensures
        match interval.ended_at_ms {
            None => r is None,
            Some(ended) => r matches Some(row) && {
                &&& row.id == interval.id
                &&& row.ended_at_ms == ended
                &&& row.elapsed_ms == interval.elapsed_ms
                &&& row.stop_reason@ == stop_reason_text(stop_reason)
            },
        },
{
    match interval.ended_at_ms {
        None => None,
        Some(ended_at_ms) => Some(IntervalCloseRow {
            id: interval.id.clone(),
            ended_at_ms,
            elapsed_ms: interval.elapsed_ms,
            stop_reason: stop_reason.as_str(),
        }),
    }
}

} // verus!
