use vstd::prelude::*;

verus! {

/// Lifecycle of a focus session as the frontend sees it.
#[derive(Clone, Copy, Debug, PartialEq, Eq, Structural)]
pub enum TimerStatus {
    Idle,
    Running,
    Paused,
    AwaitingContinue,
    Completed,
}

/// How a session was started.
#[derive(Clone, Copy, Debug, PartialEq, Eq, Structural)]
pub enum TimerMode {
    Free,
}

/// The kind of a step of a focus/break cycle.
#[derive(Clone, Copy, Debug, PartialEq, Eq, Structural)]
pub enum StepKind {
    Focus,
    ShortBreak,
}

/// Lifecycle of a single step.
#[derive(Clone, Copy, Debug, PartialEq, Eq, Structural)]
pub enum StepStatus {
    Pending,
    Running,
    Paused,
    Completed,
    Cancelled,
}

/// Durations of a focus/break cycle, all in milliseconds.
#[derive(Clone, Copy, Debug)]
pub struct CycleConfig {
    pub focus_ms: i64,
    pub break_ms: i64,
    pub total_focus_target_ms: i64,
}

/// A focus session.
#[derive(Debug)]
pub struct Session {
    pub id: String,
    pub mode: TimerMode,
    pub target_focus_ms: i64,
    pub status: TimerStatus,
    pub started_at_ms: i64,
    pub ended_at_ms: Option<i64>,
}

/// One step (focus or break) of a session.
#[derive(Debug)]
pub struct SessionStep {
    pub id: String,
    pub session_id: String,
    pub index: u32,
    pub kind: StepKind,
    pub status: StepStatus,
    pub planned_ms: i64,
    pub actual_ms: i64,
}

/// A span of real running time of one step.
#[derive(Debug)]
pub struct TimeInterval {
    pub id: String,
    pub session_id: String,
    pub step_id: String,
    pub kind: StepKind,
    pub started_at_ms: i64,
    pub ended_at_ms: Option<i64>,
    pub elapsed_ms: i64,
}

impl Clone for Session {
    fn clone(&self) -> (r: Self)
        ensures
            r == *self,
    {
        Session {
            id: self.id.clone(),
            mode: self.mode,
            target_focus_ms: self.target_focus_ms,
            status: self.status,
            started_at_ms: self.started_at_ms,
            ended_at_ms: self.ended_at_ms,
        }
    }
}

impl Clone for SessionStep {
    fn clone(&self) -> (r: Self)
        ensures
            r == *self,
    {
        SessionStep {
            id: self.id.clone(),
            session_id: self.session_id.clone(),
            index: self.index,
            kind: self.kind,
            status: self.status,
            planned_ms: self.planned_ms,
            actual_ms: self.actual_ms,
        }
    }
}

impl Clone for TimeInterval {
    fn clone(&self) -> (r: Self)
        ensures
            r == *self,
    {
        TimeInterval {
            id: self.id.clone(),
            session_id: self.session_id.clone(),
            step_id: self.step_id.clone(),
            kind: self.kind,
            started_at_ms: self.started_at_ms,
            ended_at_ms: self.ended_at_ms,
            elapsed_ms: self.elapsed_ms,
        }
    }
}

} // verus!
