use vstd::prelude::*;

use crate::models::{CycleConfig, Session, SessionStep, StepKind, StepStatus, TimeInterval, TimerMode, TimerStatus};
use crate::snapshot::{cta_kind, cta_label, TimerSnapshot, TimerSnapshotCycle, TimerSnapshotStep};

verus! {

/// The abstract state of a timer engine: everything but its clock.
pub ghost struct EngineState {
    pub session: Option<Session>,
    pub steps: Seq<SessionStep>,
    pub active_step_index: Option<usize>,
    pub intervals: Seq<TimeInterval>,
    pub current_interval_id: Option<String>,
    pub cycle_config: Option<CycleConfig>,
}

pub open spec fn min_int(a: int, b: int) -> int {
    if a <= b { a } else { b }
}

pub open spec fn max_int(a: int, b: int) -> int {
    if a >= b { a } else { b }
}

/// `x` saturated to the range of `i64`.
pub open spec fn clamp_i64(x: int) -> i64 {
    if x > i64::MAX {
        i64::MAX
    } else if x < i64::MIN {
        i64::MIN
    } else {
        x as i64
    }
}

/// Running time from `start` to `now`: never negative.
pub open spec fn elapsed_between(start: i64, now: i64) -> int {
    max_int(now - start, 0)
}

/// The kind of step that follows a step of kind `kind`.
pub open spec fn following_kind(kind: StepKind) -> StepKind {
    match kind {
        StepKind::Focus => StepKind::ShortBreak,
        StepKind::ShortBreak => StepKind::Focus,
    }
}

/// Whether an interval has the id `id` (and, with `open_only`, is still open).
pub open spec fn interval_matches(iv: TimeInterval, id: Seq<char>, open_only: bool) -> bool {
    &&& iv.id@ == id
    &&& (open_only ==> iv.ended_at_ms is None)
}

/// `k` is the first position of `ivs` that matches.
pub open spec fn is_first_match(ivs: Seq<TimeInterval>, id: Seq<char>, open_only: bool, k: int) -> bool {
    &&& 0 <= k < ivs.len()
    &&& interval_matches(ivs[k], id, open_only)
    &&& forall|j: int| 0 <= j < k ==> !interval_matches(#[trigger] ivs[j], id, open_only)
}

/// The first position of `ivs` that matches `id`, if any.
pub open spec fn find_interval(ivs: Seq<TimeInterval>, id: Seq<char>, open_only: bool) -> Option<int> {
    if exists|k: int| is_first_match(ivs, id, open_only, k) {
        Some(choose|k: int| is_first_match(ivs, id, open_only, k))
    } else {
        None
    }
}

/// There is one first match at most.
pub proof fn lemma_first_match_unique(ivs: Seq<TimeInterval>, id: Seq<char>, open_only: bool, k: int)
    requires
        is_first_match(ivs, id, open_only, k),
    ensures
        find_interval(ivs, id, open_only) == Some(k),
{
    let c = choose|c: int| is_first_match(ivs, id, open_only, c);
    assert(is_first_match(ivs, id, open_only, c));
    if c < k {
        assert(!interval_matches(ivs[c], id, open_only));
    } else if k < c {
        assert(!interval_matches(ivs[k], id, open_only));
    }
}

/// Without a matching position there is no first match.
pub proof fn lemma_no_match(ivs: Seq<TimeInterval>, id: Seq<char>, open_only: bool)
    requires
        forall|j: int| 0 <= j < ivs.len() ==> !interval_matches(#[trigger] ivs[j], id, open_only),
    ensures
        find_interval(ivs, id, open_only) is None,
{
    if exists|k: int| is_first_match(ivs, id, open_only, k) {
        let k = choose|k: int| is_first_match(ivs, id, open_only, k);
        assert(interval_matches(ivs[k], id, open_only));
    }
}

/// Number of completed steps.
pub open spec fn completed_count(steps: Seq<SessionStep>) -> nat
    decreases steps.len(),
{
    if steps.len() == 0 {
        0
    } else {
        completed_count(steps.drop_last()) + if steps.last().status == StepStatus::Completed { 1nat } else { 0nat }
    }
}

/// A step as shown in a snapshot.
pub open spec fn snapshot_step_of(step: SessionStep) -> TimerSnapshotStep {
    TimerSnapshotStep {
        id: step.id,
        kind: step.kind,
        index: step.index,
        planned_ms: step.planned_ms,
        actual_ms: step.actual_ms,
    }
}

/// The durations of a cycle as the engine stores them: each at least 1 ms.
pub open spec fn normalized_config(focus_ms: i64, break_ms: i64, total_focus_target_ms: i64) -> CycleConfig {
    CycleConfig {
        focus_ms: max_int(focus_ms as int, 1) as i64,
        break_ms: max_int(break_ms as int, 1) as i64,
        total_focus_target_ms: max_int(total_focus_target_ms as int, 1) as i64,
    }
}

/// The state right after a cycle has been started at `now`.
pub open spec fn started_cycle(
    focus_ms: i64,
    break_ms: i64,
    total_focus_target_ms: i64,
    now: i64,
    session_id: String,
    step_id: String,
    interval_id: String,
) -> EngineState {
    let config = normalized_config(focus_ms, break_ms, total_focus_target_ms);
    EngineState {
        session: Some(Session {
            id: session_id,
            mode: TimerMode::Free,
            target_focus_ms: config.total_focus_target_ms,
            status: TimerStatus::Running,
            started_at_ms: now,
            ended_at_ms: None,
        }),
        steps: seq![SessionStep {
            id: step_id,
            session_id: session_id,
            index: 0,
            kind: StepKind::Focus,
            status: StepStatus::Running,
            planned_ms: config.focus_ms,
            actual_ms: 0,
        }],
        active_step_index: Some(0),
        intervals: seq![TimeInterval {
            id: interval_id,
            session_id: session_id,
            step_id: step_id,
            kind: StepKind::Focus,
            started_at_ms: now,
            ended_at_ms: None,
            elapsed_ms: 0,
        }],
        current_interval_id: Some(interval_id),
        cycle_config: Some(config),
    }
}

/// What every snapshot of a consistent engine shows: times never negative, the
/// current step within its plan with remaining and elapsed time adding up to
/// it, a next step exactly while the focus target is not reached (of the other
/// kind, with the cycle's duration for that kind, not started), and the call to
/// action that the status and the next step call for.
pub open spec fn snapshot_is_coherent(s: TimerSnapshot) -> bool {
    &&& s.remaining_ms >= 0
    &&& s.active_kind_elapsed_ms >= 0
    &&& s.total_focus_elapsed_ms >= 0
    &&& match s.current_step {
        Some(st) => {
            &&& 0 <= st.actual_ms <= st.planned_ms
            &&& s.remaining_ms + s.active_kind_elapsed_ms == st.planned_ms
        },
        None => s.remaining_ms == 0 && s.active_kind_elapsed_ms == 0,
    }
    &&& (s.next_step is Some <==> (s.current_step is Some && s.total_focus_elapsed_ms < s.total_focus_target_ms))
    &&& (s.next_step matches Some(n) ==> {
        &&& s.current_step matches Some(st) && n.kind == following_kind(st.kind)
        &&& n.actual_ms == 0
        &&& s.cycle matches Some(c) && n.planned_ms == (if n.kind == StepKind::Focus { c.focus_ms } else { c.break_ms })
    })
    &&& s.cta.kind == cta_kind(s.status, match s.next_step { Some(n) => Some(n.kind), None => None })
}

impl EngineState {
    /// The engine with no session and nothing recorded.
    pub open spec fn empty() -> EngineState {
        EngineState {
            session: None,
            steps: Seq::empty(),
            active_step_index: None,
            intervals: Seq::empty(),
            current_interval_id: None,
            cycle_config: None,
        }
    }

    /// Every step has made progress between 0 and its planned duration,
    /// and the planned duration is at least 1 ms.
    pub open spec fn steps_within_plan(self) -> bool {
        forall|i: int| 0 <= i < self.steps.len() ==> {
            &&& 1 <= #[trigger] self.steps[i].planned_ms
            &&& 0 <= self.steps[i].actual_ms <= self.steps[i].planned_ms
        }
    }

    /// Each duration of the cycle is at least 1 ms.
    pub open spec fn config_positive(self) -> bool {
        match self.cycle_config {
            Some(c) => c.focus_ms >= 1 && c.break_ms >= 1 && c.total_focus_target_ms >= 1,
            None => true,
        }
    }

    /// No two steps share an id.
    pub open spec fn step_ids_distinct(self) -> bool {
        forall|i: int, j: int| 0 <= i < j < self.steps.len() ==> #[trigger] self.steps[i].id@ != #[trigger] self.steps[j].id@
    }

    /// A running session has an open interval that belongs to its current
    /// step; any other session has no running interval.
    pub open spec fn running_interval_ok(self) -> bool {
        if self.status() == TimerStatus::Running {
            match (self.current_step(), self.current_interval()) {
                (Some(step), Some(iv)) => iv.ended_at_ms is None && iv.step_id@ == step.id@ && iv.kind == step.kind,
                _ => false,
            }
        } else {
            self.current_interval_id is None
        }
    }

    /// An open interval has no elapsed time yet; a closed one has the time
    /// from its start to its end, never negative (saturated to `i64`).
    pub open spec fn intervals_timed(self) -> bool {
        forall|k: int| 0 <= k < self.intervals.len() ==> {
            let iv = #[trigger] self.intervals[k];
            match iv.ended_at_ms {
                None => iv.elapsed_ms == 0,
                Some(end) => iv.elapsed_ms == clamp_i64(elapsed_between(iv.started_at_ms, end)),
            }
        }
    }

    /// Every interval but the running one is closed.
    pub open spec fn others_closed(self) -> bool {
        forall|k: int| 0 <= k < self.intervals.len() && (#[trigger] self.intervals[k]).ended_at_ms is None
            ==> self.current_interval_index() == Some(k)
    }

    /// A session always has a current step, and no session means no steps.
    pub open spec fn session_has_step(self) -> bool {
        match self.session {
            Some(_) => self.current_step_index() is Some,
            None => self.steps.len() == 0,
        }
    }

    /// The invariant that every operation of the engine keeps.
    pub open spec fn consistent(self) -> bool {
        &&& self.steps_within_plan()
        &&& self.config_positive()
        &&& self.step_ids_distinct()
        &&& self.running_interval_ok()
        &&& self.others_closed()
        &&& self.intervals_timed()
        &&& self.session_has_step()
        &&& (self.session is Some <==> self.cycle_config is Some)
    }

    /// No recorded step or interval carries the id `id`.
    pub open spec fn is_fresh_id(self, id: String) -> bool {
        &&& forall|i: int| 0 <= i < self.steps.len() ==> (#[trigger] self.steps[i]).id@ != id@
        &&& forall|k: int| 0 <= k < self.intervals.len() ==> (#[trigger] self.intervals[k]).id@ != id@
    }

    pub open spec fn status(self) -> TimerStatus {
        match self.session {
            Some(s) => s.status,
            None => TimerStatus::Idle,
        }
    }

    pub open spec fn current_step_index(self) -> Option<int> {
        match self.active_step_index {
            Some(i) => if i < self.steps.len() { Some(i as int) } else { None },
            None => None,
        }
    }

    pub open spec fn current_step(self) -> Option<SessionStep> {
        match self.current_step_index() {
            Some(i) => Some(self.steps[i]),
            None => None,
        }
    }

    pub open spec fn current_interval_index(self) -> Option<int> {
        match self.current_interval_id {
            Some(id) => find_interval(self.intervals, id@, false),
            None => None,
        }
    }

    /// The interval that is running now, if any.
    pub open spec fn current_interval(self) -> Option<TimeInterval> {
        match self.current_interval_index() {
            Some(k) => Some(self.intervals[k]),
            None => None,
        }
    }

    /// Time of the running interval that belongs to `step`, at `now`.
    pub open spec fn open_elapsed_for(self, step: SessionStep, now: i64) -> int {
        match self.current_interval() {
            Some(iv) => if iv.step_id@ == step.id@ { elapsed_between(iv.started_at_ms, now) } else { 0 },
            None => 0,
        }
    }

    /// Progress of `step` at `now`: recorded progress plus its running
    /// interval, never above the planned duration.
    pub open spec fn step_elapsed_at(self, step: SessionStep, now: i64) -> int {
        min_int(step.actual_ms + self.open_elapsed_for(step, now), step.planned_ms as int)
    }

    pub open spec fn active_step_elapsed_at(self, now: i64) -> int {
        match self.current_step() {
            Some(step) => self.step_elapsed_at(step, now),
            None => 0,
        }
    }

    /// What `step` contributes to the focus total: breaks contribute nothing.
    pub open spec fn focus_term(self, step: SessionStep, now: i64) -> int {
        if step.kind == StepKind::Focus { self.step_elapsed_at(step, now) } else { 0 }
    }

    pub open spec fn focus_total_of(self, steps: Seq<SessionStep>, now: i64) -> int
        decreases steps.len(),
    {
        if steps.len() == 0 {
            0
        } else {
            self.focus_total_of(steps.drop_last(), now) + self.focus_term(steps.last(), now)
        }
    }

    /// Focus time of the session at `now`.
    pub open spec fn total_focus_elapsed_at(self, now: i64) -> int {
        self.focus_total_of(self.steps, now)
    }

    /// The focus target that decides whether another step follows.
    pub open spec fn focus_target(self) -> int {
        match self.cycle_config {
            Some(c) => c.total_focus_target_ms as int,
            None => 0,
        }
    }

    /// The kind of the step that would follow, if any.
    pub open spec fn next_step_kind(self, now: i64) -> Option<StepKind> {
        if self.total_focus_elapsed_at(now) >= self.focus_target() {
            None
        } else {
            match self.current_step() {
                Some(step) => Some(following_kind(step.kind)),
                None => None,
            }
        }
    }

    pub open spec fn planned_of_current(self) -> int {
        match self.current_step() {
            Some(step) => step.planned_ms as int,
            None => 0,
        }
    }

    /// The running interval, closed at `now`; its time is added to the current step.
    pub open spec fn close_current_interval(self, now: i64) -> EngineState {
        match self.current_interval_id {
            None => self,
            Some(id) => {
                let cleared = EngineState { current_interval_id: None, ..self };
                match find_interval(self.intervals, id@, true) {
                    None => cleared,
                    Some(k) => {
                        let iv = self.intervals[k];
                        let elapsed = clamp_i64(elapsed_between(iv.started_at_ms, now));
                        let closed = TimeInterval { ended_at_ms: Some(now), elapsed_ms: elapsed, ..iv };
                        let steps = match self.current_step_index() {
                            Some(i) => self.steps.update(
                                i,
                                SessionStep {
                                    actual_ms: min_int(self.steps[i].actual_ms + elapsed, self.steps[i].planned_ms as int) as i64,
                                    ..self.steps[i]
                                },
                            ),
                            None => self.steps,
                        };
                        EngineState { intervals: self.intervals.update(k, closed), steps, ..cleared }
                    },
                }
            },
        }
    }

    /// A new running interval for a step.
    pub open spec fn open_interval(self, now: i64, session_id: String, step_id: String, kind: StepKind, interval_id: String) -> EngineState {
        EngineState {
            intervals: self.intervals.push(TimeInterval {
                id: interval_id,
                session_id,
                step_id,
                kind,
                started_at_ms: now,
                ended_at_ms: None,
                elapsed_ms: 0,
            }),
            current_interval_id: Some(interval_id),
            ..self
        }
    }

    /// The session dropped after its running interval is closed; intervals stay.
    pub open spec fn reset_active(self, now: i64) -> EngineState {
        let closed = self.close_current_interval(now);
        EngineState {
            session: None,
            steps: Seq::empty(),
            active_step_index: None,
            intervals: closed.intervals,
            current_interval_id: None,
            cycle_config: None,
        }
    }

    /// The next step begun after the user confirms it.
    pub open spec fn continued(self, now: i64, step_id: String, interval_id: String) -> EngineState {
        if self.status() != TimerStatus::AwaitingContinue {
            self
        } else {
            match (self.next_step_kind(now), self.cycle_config, self.session) {
                (Some(kind), Some(config), Some(session)) => {
                    let planned = if kind == StepKind::Focus { config.focus_ms } else { config.break_ms };
                    let step = SessionStep {
                        id: step_id,
                        session_id: session.id,
                        index: self.steps.len() as u32,
                        kind,
                        status: StepStatus::Running,
                        planned_ms: planned,
                        actual_ms: 0,
                    };
                    let moved = EngineState {
                        session: Some(Session { status: TimerStatus::Running, ..session }),
                        steps: self.steps.push(step),
                        active_step_index: Some(self.steps.len() as usize),
                        ..self
                    };
                    moved.open_interval(now, session.id, step_id, kind, interval_id)
                },
                _ => self,
            }
        }
    }

    /// The running step paused at `now`.
    pub open spec fn paused(self, now: i64) -> EngineState {
        if self.status() != TimerStatus::Running {
            self
        } else {
            let closed = self.close_current_interval(now);
            let session = match closed.session {
                Some(s) => Some(Session { status: TimerStatus::Paused, ..s }),
                None => None,
            };
            let steps = match closed.current_step_index() {
                Some(i) => closed.steps.update(i, SessionStep { status: StepStatus::Paused, ..closed.steps[i] }),
                None => closed.steps,
            };
            EngineState { session, steps, ..closed }
        }
    }

    /// The paused step running again from `now`.
    pub open spec fn resumed(self, now: i64, interval_id: String) -> EngineState {
        if self.status() != TimerStatus::Paused {
            self
        } else {
            match (self.session, self.current_step_index()) {
                (Some(session), Some(i)) => {
                    let step = self.steps[i];
                    let moved = EngineState {
                        session: Some(Session { status: TimerStatus::Running, ..session }),
                        steps: self.steps.update(i, SessionStep { status: StepStatus::Running, ..step }),
                        ..self
                    };
                    moved.open_interval(now, session.id, step.id, step.kind, interval_id)
                },
                _ => self,
            }
        }
    }

    /// Whether the running step has reached its planned duration at `now`.
    pub open spec fn is_due(self, now: i64) -> bool {
        &&& self.status() == TimerStatus::Running
        &&& self.active_step_elapsed_at(now) >= self.planned_of_current()
    }

    /// The running step completed at `now`: the session waits for the next
    /// step, or is completed once the focus target is reached.
    pub open spec fn completed(self, now: i64) -> EngineState {
        let closed = self.close_current_interval(now);
        let planned = self.planned_of_current();
        let steps = match closed.current_step_index() {
            Some(i) => closed.steps.update(
                i,
                SessionStep { actual_ms: closed.steps[i].planned_ms, status: StepStatus::Completed, ..closed.steps[i] },
            ),
            None => closed.steps,
        };
        let finished = EngineState { steps, ..closed };
        let target = match self.cycle_config {
            Some(c) => c.total_focus_target_ms as int,
            None => planned,
        };
        let reached = finished.total_focus_elapsed_at(now) >= target;
        let session = match finished.session {
            Some(s) => if reached {
                Some(Session { status: TimerStatus::Completed, ended_at_ms: Some(now), ..s })
            } else {
                Some(Session { status: TimerStatus::AwaitingContinue, ..s })
            },
            None => None,
        };
        EngineState { session, ..finished }
    }

    /// The state after a completion check at `now`.
    pub open spec fn after_completion_check(self, now: i64) -> EngineState {
        if self.is_due(now) { self.completed(now) } else { self }
    }

    /// Progress of the current step as the snapshot shows it.
    pub open spec fn shown_active_elapsed(self, now: i64) -> int {
        if self.status() == TimerStatus::Running {
            self.active_step_elapsed_at(now)
        } else {
            match self.current_step() {
                Some(step) => step.actual_ms as int,
                None => 0,
            }
        }
    }

    /// The target shown in a snapshot.
    pub open spec fn shown_focus_target(self) -> int {
        match self.cycle_config {
            Some(c) => c.total_focus_target_ms as int,
            None => self.planned_of_current(),
        }
    }

    /// `s` is the snapshot of this state at the instant `now`.
    pub open spec fn is_snapshot(self, s: TimerSnapshot, now: i64) -> bool {
        let next = self.next_step_kind(now);
        let total = clamp_i64(self.total_focus_elapsed_at(now));
        let active = self.shown_active_elapsed(now);
        &&& s.session_id == (match self.session { Some(x) => Some(x.id), None => None })
        &&& s.mode == (match self.session { Some(x) => Some(x.mode), None => None })
        &&& s.status == self.status()
        &&& s.current_step == (match self.current_step() { Some(st) => Some(snapshot_step_of(st)), None => None })
        &&& (match (next, self.cycle_config) {
            (Some(kind), Some(c)) => s.next_step matches Some(n) && {
                &&& n.id@ == Seq::<char>::empty()
                &&& n.kind == kind
                &&& n.index == self.steps.len() as u32
                &&& n.planned_ms == (if kind == StepKind::Focus { c.focus_ms } else { c.break_ms })
                &&& n.actual_ms == 0
            },
            _ => s.next_step is None,
        })
        &&& s.cta.kind == cta_kind(self.status(), next)
        &&& s.cta.label@ == cta_label(cta_kind(self.status(), next))
        &&& s.cycle == (match self.cycle_config {
            Some(c) => Some(TimerSnapshotCycle {
                focus_ms: c.focus_ms,
                break_ms: c.break_ms,
                total_focus_target_ms: c.total_focus_target_ms,
                completed_focus_ms: total,
                completed_steps: completed_count(self.steps) as u32,
            }),
            None => None,
        })
        &&& s.started_at_ms == (match self.session { Some(x) => Some(x.started_at_ms), None => None })
        &&& s.current_interval_started_at_ms == (match self.current_interval() {
            Some(iv) => Some(iv.started_at_ms),
            None => None,
        })
        &&& s.now_ms == now
        &&& s.remaining_ms == clamp_i64(max_int(self.planned_of_current() - active, 0))
        &&& s.total_focus_elapsed_ms == total
        &&& s.total_focus_target_ms == self.shown_focus_target() as i64
        &&& s.active_kind_elapsed_ms == active as i64
    }
}

} // verus!
