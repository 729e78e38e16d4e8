use vstd::prelude::*;

use crate::engine::ActiveTimerState;
use crate::models::{Session, SessionStep, StepStatus, TimeInterval, TimerStatus};
use crate::persistence::{persisted_status, persistence_status_of, StepPersistenceStatus, StopReason};
use crate::state::{clamp_i64, elapsed_between, min_int};

verus! {

/// How one step is to be stored.
#[derive(Debug)]
pub struct StepRecord {
    pub step: SessionStep,
    pub status: StepPersistenceStatus,
    pub started_at_ms: Option<i64>,
    pub ended_at_ms: Option<i64>,
    pub updated_at_ms: i64,
}

/// What is to be stored when a session is dropped before its end.
#[derive(Debug)]
pub struct CancellationPlan {
    /// The running interval, closed at the drop instant.
    pub closed_interval: Option<TimeInterval>,
    /// The session with its end time, unless it had already completed.
    pub session: Option<Session>,
    /// Its steps: completed ones stay completed, the others are cancelled.
    pub steps: Vec<StepRecord>,
}

/// An interval closed at `ended_at_ms`.
pub open spec fn closed_interval_of(interval: Option<TimeInterval>, ended_at_ms: i64) -> Option<TimeInterval> {
    match interval {
        Some(iv) => Some(TimeInterval {
            ended_at_ms: Some(ended_at_ms),
            elapsed_ms: clamp_i64(elapsed_between(iv.started_at_ms, ended_at_ms)),
            ..iv
        }),
        None => None,
    }
}

/// The interval closed at `ended_at_ms`: its elapsed time is the time since it
/// started, never negative.
pub fn closed_interval(interval: Option<TimeInterval>, ended_at_ms: i64) -> (r: Option<TimeInterval>)
    ensures
        r == closed_interval_of(interval, ended_at_ms),
{
    match interval {
        Some(mut interval) => {
            let d: i128 = (ended_at_ms as i128) - (interval.started_at_ms as i128);
            interval.ended_at_ms = Some(ended_at_ms);
            interval.elapsed_ms = if d <= 0 {
                0
            } else if d > (i64::MAX as i128) {
                i64::MAX
            } else {
                d as i64
            };
            Some(interval)
        },
        None => None,
    }
}

/// The reason to record when a step completes: the whole session, or a switch
/// to the next step.
pub fn completion_stop_reason(status: TimerStatus) -> (r: StopReason)
    ensures
        r == (if status == TimerStatus::Completed { StopReason::Complete } else { StopReason::StepSwitch }),
{
    if status == TimerStatus::Completed {
        StopReason::Complete
    } else {
        StopReason::StepSwitch
    }
}

/// How a step of an active session is stored: the current step gets
/// `step_status`, the others their own status; a pending step has no start,
/// and a finished one ends at `updated_at_ms`.
pub open spec fn active_record_status(step: SessionStep, current_id: Seq<char>, step_status: StepPersistenceStatus) -> StepPersistenceStatus {
    if step.id@ == current_id { step_status } else { persisted_status(step.status) }
}

pub open spec fn is_active_record(
    r: StepRecord,
    session: Session,
    step: SessionStep,
    current_id: Seq<char>,
    step_status: StepPersistenceStatus,
    updated_at_ms: i64,
) -> bool {
    let status = active_record_status(step, current_id, step_status);
    &&& r.step == step
    &&& r.status == status
    &&& r.started_at_ms == (if status == StepPersistenceStatus::Pending { None } else { Some(session.started_at_ms) })
    &&& r.ended_at_ms == (if status == StepPersistenceStatus::Completed || status == StepPersistenceStatus::Cancelled {
        Some(updated_at_ms)
    } else {
        session.ended_at_ms
    })
    &&& r.updated_at_ms == updated_at_ms
}

/// The id of the current step, or the empty text without one.
pub open spec fn current_id_of(current_step: Option<SessionStep>) -> Seq<char> {
    match current_step {
        Some(step) => step.id@,
        None => Seq::empty(),
    }
}

/// How each step of an active session is to be stored.
pub fn active_step_records(
    session: &Session,
    steps: &Vec<SessionStep>,
    current_step: &Option<SessionStep>,
    step_status: StepPersistenceStatus,
    updated_at_ms: i64,
) -> (r: Vec<StepRecord>)
    ensures
        r.len() == steps.len(),
        forall|i: int| 0 <= i < steps.len() ==> is_active_record(#[trigger] r@[i], *session, steps@[i],
            current_id_of(*current_step), step_status, updated_at_ms),
{
    let current_id = match current_step {
        Some(step) => step.id.clone(),
        None => String::new(),
    };
    let mut records: Vec<StepRecord> = Vec::new();
    let mut i: usize = 0;
    while i < steps.len()
        invariant
            i <= steps.len(),
            records.len() == i,
            current_id@ == current_id_of(*current_step),
            forall|j: int| 0 <= j < i ==> is_active_record(#[trigger] records@[j], *session, steps@[j],
                current_id_of(*current_step), step_status, updated_at_ms),
        decreases steps.len() - i,
    {
        let step = steps[i].clone();
        let status = if step.id == current_id { step_status } else { persistence_status_of(step.status) };
        let started_at_ms = if status == StepPersistenceStatus::Pending { None } else { Some(session.started_at_ms) };
        let ended_at_ms = if status == StepPersistenceStatus::Completed || status == StepPersistenceStatus::Cancelled {
            Some(updated_at_ms)
        } else {
            session.ended_at_ms
        };
        records.push(StepRecord { step, status, started_at_ms, ended_at_ms, updated_at_ms });
        i = i + 1;
    }
    records
}

/// `j` is the first step whose id is `id`.
pub open spec fn is_first_step_with_id(steps: Seq<SessionStep>, id: Seq<char>, j: int) -> bool {
    &&& 0 <= j < steps.len()
    &&& steps[j].id@ == id
    &&& forall|i: int| 0 <= i < j ==> (#[trigger] steps[i]).id@ != id
}

pub open spec fn first_step_with_id(steps: Seq<SessionStep>, id: Seq<char>) -> Option<int> {
    if exists|j: int| is_first_step_with_id(steps, id, j) {
        Some(choose|j: int| is_first_step_with_id(steps, id, j))
    } else {
        None
    }
}

/// The steps after the time of a closed interval is added to its step.
pub open spec fn steps_with_interval(steps: Seq<SessionStep>, closed: Option<TimeInterval>) -> Seq<SessionStep> {
    match closed {
        Some(iv) => match first_step_with_id(steps, iv.step_id@) {
            Some(j) => steps.update(
                j,
                SessionStep { actual_ms: min_int(steps[j].actual_ms + iv.elapsed_ms, steps[j].planned_ms as int) as i64, ..steps[j] },
            ),
            None => steps,
        },
        None => steps,
    }
}

/// `plan` is what dropping `previous` at `ended_at_ms` stores.
pub open spec fn is_cancellation_plan(plan: CancellationPlan, previous: ActiveTimerState, ended_at_ms: i64) -> bool {
    let closed = closed_interval_of(previous.current_interval, ended_at_ms);
    let steps = steps_with_interval(previous.steps@, closed);
    &&& plan.closed_interval == closed
    &&& if previous.session.status == TimerStatus::Completed {
        &&& plan.session is None
        &&& plan.steps.len() == 0
    } else {
        &&& plan.session == Some(Session { ended_at_ms: Some(ended_at_ms), ..previous.session })
        &&& plan.steps.len() == steps.len()
        &&& forall|i: int| 0 <= i < steps.len() ==> {
            let r = #[trigger] plan.steps@[i];
            &&& r.step == steps[i]
            &&& r.status == (if steps[i].status == StepStatus::Completed {
                StepPersistenceStatus::Completed
            } else {
                StepPersistenceStatus::Cancelled
            })
            &&& r.started_at_ms == Some(previous.session.started_at_ms)
            &&& r.ended_at_ms == Some(ended_at_ms)
            &&& r.updated_at_ms == ended_at_ms
        }
    }
}

fn first_step_index(steps: &Vec<SessionStep>, id: &String) -> (r: Option<usize>)
    ensures
        match r {
            Some(j) => first_step_with_id(steps@, id@) == Some(j as int),
            None => first_step_with_id(steps@, id@) is None,
        },
{
    let mut j: usize = 0;
    while j < steps.len()
        invariant
            j <= steps.len(),
            forall|i: int| 0 <= i < j ==> (#[trigger] steps@[i]).id@ != id@,
        decreases steps.len() - j,
    {
        if steps[j].id == *id {
            proof {
                assert(is_first_step_with_id(steps@, id@, j as int));
                let c = choose|c: int| is_first_step_with_id(steps@, id@, c);
                if c < j {
                    assert(steps@[c].id@ != id@);
                } else if (j as int) < c {
                    assert(steps@[j as int].id@ != id@);
                }
            }
            return Some(j);
        }
        j = j + 1;
    }
    proof {
        if exists|c: int| is_first_step_with_id(steps@, id@, c) {
            let c = choose|c: int| is_first_step_with_id(steps@, id@, c);
            assert(steps@[c].id@ == id@);
        }
    }
    None
}

/// What dropping a session at `ended_at_ms` stores: its running interval
/// closed, with its time added to its step (never above the plan); and,
/// unless the session had completed, the session ended at that instant with
/// every unfinished step cancelled.
pub fn cancellation_plan(previous: ActiveTimerState, ended_at_ms: i64) -> (plan: CancellationPlan)
    ensures
        is_cancellation_plan(plan, previous, ended_at_ms),
{
    let ActiveTimerState { session, steps, current_interval } = previous;
    let mut steps = steps;
    let closed = closed_interval(current_interval, ended_at_ms);
    match &closed {
        Some(interval) => match first_step_index(&steps, &interval.step_id) {
            Some(j) => {
                let mut step = steps[j].clone();
                let total: i128 = (step.actual_ms as i128) + (interval.elapsed_ms as i128);
                step.actual_ms = if total <= (step.planned_ms as i128) { total as i64 } else { step.planned_ms };
                steps.set(j, step);
            },
            None => {},
        },
        None => {},
    }
    proof {
        assert(steps@ =~= steps_with_interval(previous.steps@, closed));
    }
    if session.status == TimerStatus::Completed {
        return CancellationPlan { closed_interval: closed, session: None, steps: Vec::new() };
    }
    let mut session = session;
    session.ended_at_ms = Some(ended_at_ms);
    let mut records: Vec<StepRecord> = Vec::new();
    let mut i: usize = 0;
    while i < steps.len()
        invariant
            i <= steps.len(),
            records.len() == i,
            steps@ == steps_with_interval(previous.steps@, closed),
            session == (Session { ended_at_ms: Some(ended_at_ms), ..previous.session }),
            forall|k: int| 0 <= k < i ==> {
                let r = #[trigger] records@[k];
                &&& r.step == steps@[k]
                &&& r.status == (if steps@[k].status == StepStatus::Completed {
                    StepPersistenceStatus::Completed
                } else {
                    StepPersistenceStatus::Cancelled
                })
                &&& r.started_at_ms == Some(previous.session.started_at_ms)
                &&& r.ended_at_ms == Some(ended_at_ms)
                &&& r.updated_at_ms == ended_at_ms
            },
        decreases steps.len() - i,
    {
        let step = steps[i].clone();
        let status = if step.status == StepStatus::Completed {
            StepPersistenceStatus::Completed
        } else {
            StepPersistenceStatus::Cancelled
        };
        records.push(StepRecord {
            step,
            status,
            started_at_ms: Some(session.started_at_ms),
            ended_at_ms: Some(ended_at_ms),
            updated_at_ms: ended_at_ms,
        });
        i = i + 1;
    }
    CancellationPlan { closed_interval: closed, session: Some(session), steps: records }
}

/// Dropping a session closes its running interval with a non-negative
/// elapsed time, and never records progress beyond a step's plan.
pub proof fn law_cancellation_keeps_progress_within_plan(plan: CancellationPlan, previous: ActiveTimerState, ended_at_ms: i64)
    requires
        is_cancellation_plan(plan, previous, ended_at_ms),
        forall|i: int| 0 <= i < previous.steps@.len() ==> 0 <= (#[trigger] previous.steps@[i]).actual_ms
            <= previous.steps@[i].planned_ms,
    ensures
        plan.closed_interval matches Some(iv) ==> iv.elapsed_ms >= 0 && iv.ended_at_ms == Some(ended_at_ms),
        forall|i: int| 0 <= i < plan.steps.len() ==> 0 <= (#[trigger] plan.steps@[i]).step.actual_ms
            <= plan.steps@[i].step.planned_ms,
{
    let closed = closed_interval_of(previous.current_interval, ended_at_ms);
    let steps = steps_with_interval(previous.steps@, closed);
    assert forall|i: int| 0 <= i < steps.len() implies 0 <= (#[trigger] steps[i]).actual_ms <= steps[i].planned_ms by {
        assert(0 <= previous.steps@[i].actual_ms);
    }
    if previous.session.status != TimerStatus::Completed {
        assert forall|i: int| 0 <= i < plan.steps.len() implies 0 <= (#[trigger] plan.steps@[i]).step.actual_ms
            <= plan.steps@[i].step.planned_ms by {
            assert(plan.steps@[i].step == steps[i]);
        }
    }
}

/// Dropping a session that has not completed (running, paused or waiting for
/// the next step) ends it at the drop instant and stores every one of its
/// steps, each ending then: completed steps stay completed, all others are
/// cancelled. Only a completed session is left as it was.
pub proof fn law_cancellation_ends_unfinished_sessions(plan: CancellationPlan, previous: ActiveTimerState, ended_at_ms: i64)
    requires
        is_cancellation_plan(plan, previous, ended_at_ms),
    ensures
        (plan.session is None) == (previous.session.status == TimerStatus::Completed),
        previous.session.status != TimerStatus::Completed ==> {
            &&& plan.session matches Some(session) && {
                &&& session.id == previous.session.id
                &&& session.status == previous.session.status
                &&& session.started_at_ms == previous.session.started_at_ms
                &&& session.ended_at_ms == Some(ended_at_ms)
            }
            &&& plan.steps.len() == previous.steps.len()
            &&& forall|i: int| 0 <= i < plan.steps.len() ==> {
                let r = #[trigger] plan.steps@[i];
                &&& r.step.id == previous.steps@[i].id
                &&& r.step.status == previous.steps@[i].status
                &&& r.ended_at_ms == Some(ended_at_ms)
                &&& (r.status == StepPersistenceStatus::Completed) == (previous.steps@[i].status == StepStatus::Completed)
                &&& (r.status == StepPersistenceStatus::Completed || r.status == StepPersistenceStatus::Cancelled)
            }
        },
        previous.session.status == TimerStatus::Completed ==> plan.steps.len() == 0,
{
    let closed = closed_interval_of(previous.current_interval, ended_at_ms);
    let steps = steps_with_interval(previous.steps@, closed);
    assert(steps.len() == previous.steps@.len());
    assert forall|i: int| 0 <= i < steps.len() implies #[trigger] steps[i].id == previous.steps@[i].id
        && steps[i].status == previous.steps@[i].status by {
    }
}

} // verus!
