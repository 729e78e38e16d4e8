use vstd::prelude::*;

use crate::clock::Clock;
use crate::ids::new_id;
use crate::models::{CycleConfig, Session, SessionStep, StepKind, StepStatus, TimeInterval, TimerMode, TimerStatus};
use crate::snapshot::{cta_for_status, is_idle_snapshot, TimerSnapshot, TimerSnapshotCycle, TimerSnapshotStep};
use crate::state::{
    clamp_i64, elapsed_between, find_interval, interval_matches, is_first_match, lemma_first_match_unique,
    lemma_no_match, min_int, started_cycle, completed_count, snapshot_step_of, snapshot_is_coherent, EngineState,
};
use crate::laws::{
    law_completion, law_continue_appends_step, law_pause_keeps_focus_time, law_reset_clears_session,
    law_resume_opens_interval, law_snapshot_coherent, law_start_is_consistent,
};

verus! {

/// The timer: the one owner of the session, its steps and its intervals.
pub struct TimerEngine<C: Clock> {
    clock: C,
    session: Option<Session>,
    steps: Vec<SessionStep>,
    active_step_index: Option<usize>,
    intervals: Vec<TimeInterval>,
    current_interval_id: Option<String>,
    cycle_config: Option<CycleConfig>,
}

/// What a session leaves behind when it is replaced or reset.
#[derive(Clone, Debug)]
pub struct ActiveTimerState {
    pub session: Session,
    pub steps: Vec<SessionStep>,
    pub current_interval: Option<TimeInterval>,
}

impl<C: Clock> View for TimerEngine<C> {
    type V = EngineState;

    closed spec fn view(&self) -> EngineState {
        EngineState {
            session: self.session,
            steps: self.steps@,
            active_step_index: self.active_step_index,
            intervals: self.intervals@,
            current_interval_id: self.current_interval_id,
            cycle_config: self.cycle_config,
        }
    }
}

fn clone_string_option(s: &Option<String>) -> (r: Option<String>)
    ensures
        r == *s,
{
    match s {
        Some(x) => Some(x.clone()),
        None => None,
    }
}

fn clone_steps(steps: &Vec<SessionStep>) -> (r: Vec<SessionStep>)
    ensures
        r@ == steps@,
{
    let mut r: Vec<SessionStep> = Vec::new();
    let mut i: usize = 0;
    while i < steps.len()
        invariant
            i <= steps.len(),
            r@ == steps@.take(i as int),
        decreases steps.len() - i,
    {
        r.push(steps[i].clone());
        proof {
            assert(steps@.take(i as int).push(steps@[i as int]) =~= steps@.take(i + 1));
        }
        i = i + 1;
    }
    proof {
        assert(steps@.take(steps.len() as int) =~= steps@);
    }
    r
}

fn clamp_to_i64(x: i128) -> (r: i64)
    ensures
        r == clamp_i64(x as int),
{
    if x > (i64::MAX as i128) {
        i64::MAX
    } else if x < (i64::MIN as i128) {
        i64::MIN
    } else {
        x as i64
    }
}

/// A step as shown in a snapshot.
fn snapshot_step(step: &SessionStep) -> (r: TimerSnapshotStep)
    ensures
        r == snapshot_step_of(*step),
{
    TimerSnapshotStep {
        id: step.id.clone(),
        kind: step.kind,
        index: step.index,
        planned_ms: step.planned_ms,
        actual_ms: step.actual_ms,
    }
}

/// Running time from `start` to `now`, never negative, saturated to `i64`.
fn elapsed_ms_between(start: i64, now: i64) -> (r: i64)
    ensures
        r == clamp_i64(elapsed_between(start, now)),
{
    let d: i128 = (now as i128) - (start as i128);
    if d <= 0 {
        0
    } else if d > (i64::MAX as i128) {
        i64::MAX
    } else {
        d as i64
    }
}

/// `min(actual + elapsed, planned)`, computed without overflow.
fn capped_sum(actual: i64, elapsed: i128, planned: i64) -> (r: i64)
    requires
        elapsed >= 0,
        elapsed <= 0x1_0000_0000_0000_0000,
    ensures
        r == min_int(actual + elapsed, planned as int),
{
    let s: i128 = (actual as i128) + elapsed;
    if s <= (planned as i128) {
        s as i64
    } else {
        planned
    }
}

impl<C: Clock> TimerEngine<C> {
    /// An engine with no session.
    pub fn new(clock: C) -> (engine: Self)
        ensures
            engine@ == EngineState::empty(),
            engine@.consistent(),
    {
        TimerEngine {
            clock,
            session: None,
            steps: Vec::new(),
            active_step_index: None,
            intervals: Vec::new(),
            current_interval_id: None,
            cycle_config: None,
        }
    }

    fn status(&self) -> (r: TimerStatus)
        ensures
            r == self@.status(),
    {
        match &self.session {
            Some(session) => session.status,
            None => TimerStatus::Idle,
        }
    }

    fn current_step_index(&self) -> (r: Option<usize>)
        ensures
            match r {
                Some(i) => self@.current_step_index() == Some(i as int),
                None => self@.current_step_index() is None,
            },
    {
        match self.active_step_index {
            Some(i) => if i < self.steps.len() { Some(i) } else { None },
            None => None,
        }
    }

    /// The first interval with the id `id` (and, with `open_only`, still open).
    fn find_interval(&self, id: &String, open_only: bool) -> (r: Option<usize>)
        ensures
            match r {
                Some(k) => find_interval(self@.intervals, id@, open_only) == Some(k as int),
                None => find_interval(self@.intervals, id@, open_only) is None,
            },
    {
        let mut k: usize = 0;
        while k < self.intervals.len()
            invariant
                k <= self.intervals.len(),
                forall|j: int| 0 <= j < k ==> !interval_matches(#[trigger] self@.intervals[j], id@, open_only),
            decreases self.intervals.len() - k,
        {
            let iv = &self.intervals[k];
            if iv.id == *id && (!open_only || iv.ended_at_ms.is_none()) {
                proof {
                    assert(is_first_match(self@.intervals, id@, open_only, k as int));
                    lemma_first_match_unique(self@.intervals, id@, open_only, k as int);
                }
                return Some(k);
            }
            k = k + 1;
        }
        proof {
            lemma_no_match(self@.intervals, id@, open_only);
        }
        None
    }

    fn current_interval_index(&self) -> (r: Option<usize>)
        ensures
            match r {
                Some(k) => self@.current_interval_index() == Some(k as int) && k < self@.intervals.len(),
                None => self@.current_interval_index() is None,
            },
    {
        match &self.current_interval_id {
            Some(id) => {
                self.find_interval(id, false)
            },
            None => None,
        }
    }
    /// Time of the running interval that belongs to `step`, at `now`.
    fn open_elapsed_for(&self, step: &SessionStep, now: i64) -> (r: i128)
        ensures
            r == self@.open_elapsed_for(*step, now),
            0 <= r <= 0x1_0000_0000_0000_0000,
    {
        match self.current_interval_index() {
            Some(k) => {
                let iv = &self.intervals[k];
                if iv.step_id == step.id {
                    let d: i128 = (now as i128) - (iv.started_at_ms as i128);
                    if d > 0 { d } else { 0 }
                } else {
                    0
                }
            },
            None => 0,
        }
    }

    fn step_elapsed_at(&self, step: &SessionStep, now: i64) -> (r: i64)
        ensures
            r == self@.step_elapsed_at(*step, now),
    {
        let open = self.open_elapsed_for(step, now);
        capped_sum(step.actual_ms, open, step.planned_ms)
    }

    fn active_step_elapsed_at(&self, now: i64) -> (r: i64)
        ensures
            r == self@.active_step_elapsed_at(now),
    {
        match self.current_step_index() {
            Some(i) => self.step_elapsed_at(&self.steps[i], now),
            None => 0,
        }
    }

    /// Focus time of the session at `now`, summed exactly.
    fn total_focus_elapsed_at(&self, now: i64) -> (r: i128)
        ensures
            r == self@.total_focus_elapsed_at(now),
    {
        let mut total: i128 = 0;
        let mut i: usize = 0;
        while i < self.steps.len()
            invariant
                i <= self.steps.len(),
                total == self@.focus_total_of(self@.steps.take(i as int), now),
                -(i as int) * 0x8000_0000_0000_0000 <= total <= (i as int) * 0x8000_0000_0000_0000,
            decreases self.steps.len() - i,
        {
            let step = &self.steps[i];
            let term: i64 = if step.kind == StepKind::Focus { self.step_elapsed_at(step, now) } else { 0 };
            proof {
                assert(self@.steps.take(i + 1).drop_last() =~= self@.steps.take(i as int));
                assert(self@.steps.take(i + 1).last() == self@.steps[i as int]);
                assert((i + 1) as int * 0x8000_0000_0000_0000 == (i as int) * 0x8000_0000_0000_0000 + 0x8000_0000_0000_0000) by (nonlinear_arith);
                assert((i as int) * 0x8000_0000_0000_0000 <= 0xffff_ffff_ffff_ffff * 0x8000_0000_0000_0000) by (nonlinear_arith)
                    requires (i as int) <= 0xffff_ffff_ffff_ffff;
            }
            total = total + (term as i128);
            i = i + 1;
        }
        proof {
            assert(self@.steps.take(self.steps.len() as int) =~= self@.steps);
        }
        total
    }

    fn next_step_kind(&self, now: i64) -> (r: Option<StepKind>)
        ensures
            r == self@.next_step_kind(now),
    {
        let target: i64 = match &self.cycle_config {
            Some(config) => config.total_focus_target_ms,
            None => 0,
        };
        if self.total_focus_elapsed_at(now) >= (target as i128) {
            return None;
        }
        match self.current_step_index() {
            Some(i) => match self.steps[i].kind {
                StepKind::Focus => Some(StepKind::ShortBreak),
                StepKind::ShortBreak => Some(StepKind::Focus),
            },
            None => None,
        }
    }

    fn completed_steps(&self) -> (r: usize)
        ensures
            r == completed_count(self@.steps),
    {
        let mut count: usize = 0;
        let mut i: usize = 0;
        while i < self.steps.len()
            invariant
                i <= self.steps.len(),
                count == completed_count(self@.steps.take(i as int)),
                count <= i,
            decreases self.steps.len() - i,
        {
            proof {
                assert(self@.steps.take(i + 1).drop_last() =~= self@.steps.take(i as int));
            }
            if self.steps[i].status == StepStatus::Completed {
                count = count + 1;
            }
            i = i + 1;
        }
        proof {
            assert(self@.steps.take(self.steps.len() as int) =~= self@.steps);
        }
        count
    }

    /// The snapshot of the engine at the instant `now_ms`.
    pub fn snapshot_at(&self, now_ms: i64) -> (s: TimerSnapshot)
        ensures
            self@.is_snapshot(s, now_ms),
            self@.consistent() ==> snapshot_is_coherent(s),
    {
        let status = self.status();
        let current = self.current_step_index();
        let active: i64 = if status == TimerStatus::Running {
            self.active_step_elapsed_at(now_ms)
        } else {
            match current {
                Some(i) => self.steps[i].actual_ms,
                None => 0,
            }
        };
        let planned: i64 = match current {
            Some(i) => self.steps[i].planned_ms,
            None => 0,
        };
        let total = clamp_to_i64(self.total_focus_elapsed_at(now_ms));
        let total_target: i64 = match &self.cycle_config {
            Some(config) => config.total_focus_target_ms,
            None => planned,
        };
        let next = self.next_step_kind(now_ms);
        let next_step = match next {
            Some(kind) => match &self.cycle_config {
                Some(config) => Some(TimerSnapshotStep {
                    id: String::new(),
                    kind,
                    index: self.steps.len() as u32,
                    planned_ms: match kind {
                        StepKind::Focus => config.focus_ms,
                        StepKind::ShortBreak => config.break_ms,
                    },
                    actual_ms: 0,
                }),
                None => None,
            },
            None => None,
        };
        let cycle = match &self.cycle_config {
            Some(config) => Some(TimerSnapshotCycle {
                focus_ms: config.focus_ms,
                break_ms: config.break_ms,
                total_focus_target_ms: config.total_focus_target_ms,
                completed_focus_ms: total,
                completed_steps: self.completed_steps() as u32,
            }),
            None => None,
        };
        let current_step = match current {
            Some(i) => Some(snapshot_step(&self.steps[i])),
            None => None,
        };
        let interval_started = match self.current_interval_index() {
            Some(k) => Some(self.intervals[k].started_at_ms),
            None => None,
        };
        let remaining_wide: i128 = (planned as i128) - (active as i128);
        let remaining = clamp_to_i64(if remaining_wide > 0 { remaining_wide } else { 0 });
        let s = TimerSnapshot {
            session_id: match &self.session {
                Some(session) => Some(session.id.clone()),
                None => None,
            },
            mode: match &self.session {
                Some(session) => Some(session.mode),
                None => None,
            },
            status,
            current_step,
            next_step,
            cta: cta_for_status(&status, next),
            cycle,
            started_at_ms: match &self.session {
                Some(session) => Some(session.started_at_ms),
                None => None,
            },
            current_interval_started_at_ms: interval_started,
            now_ms,
            remaining_ms: remaining,
            total_focus_elapsed_ms: total,
            total_focus_target_ms: total_target,
            active_kind_elapsed_ms: active,
        };
        proof {
            if self@.consistent() {
                law_snapshot_coherent(self@, s, now_ms);
            }
        }
        s
    }

    /// Closes the running interval at `now` and adds its time to the current step.
    fn close_current_interval(&mut self, now: i64)
        ensures
            final(self)@ == old(self)@.close_current_interval(now),
    {
        let id = match &self.current_interval_id {
            Some(id) => id.clone(),
            None => return,
        };
        self.current_interval_id = None;
        match self.find_interval(&id, true) {
            None => {},
            Some(k) => {
                let mut iv = self.intervals[k].clone();
                let elapsed = elapsed_ms_between(iv.started_at_ms, now);
                iv.ended_at_ms = Some(now);
                iv.elapsed_ms = elapsed;
                self.intervals.set(k, iv);
                match self.current_step_index() {
                    Some(i) => {
                        let mut step = self.steps[i].clone();
                        step.actual_ms = capped_sum(step.actual_ms, elapsed as i128, step.planned_ms);
                        self.steps.set(i, step);
                    },
                    None => {},
                }
            },
        }
        proof {
            assert(final(self)@ =~= old(self)@.close_current_interval(now));
        }
    }

    fn open_interval(&mut self, now: i64, session_id: String, step_id: String, kind: StepKind, interval_id: String)
        ensures
            final(self)@ == old(self)@.open_interval(now, session_id, step_id, kind, interval_id),
    {
        self.intervals.push(TimeInterval {
            id: interval_id.clone(),
            session_id,
            step_id,
            kind,
            started_at_ms: now,
            ended_at_ms: None,
            elapsed_ms: 0,
        });
        self.current_interval_id = Some(interval_id);
    }

    fn reset_active(&mut self, now: i64)
        ensures
            final(self)@ == old(self)@.reset_active(now),
    {
        self.close_current_interval(now);
        self.session = None;
        self.steps = Vec::new();
        self.active_step_index = None;
        self.current_interval_id = None;
        self.cycle_config = None;
        proof {
            assert(final(self)@ =~= old(self)@.reset_active(now));
        }
    }

    /// Starts a focus/break cycle at `now_ms` with the given ids, replacing
    /// any session. Durations below 1 ms are raised to 1 ms.
    pub fn start_focus_break_cycle_at(
        &mut self,
        focus_ms: i64,
        break_ms: i64,
        total_focus_target_ms: i64,
        now_ms: i64,
        session_id: String,
        step_id: String,
        interval_id: String,
    ) -> (s: TimerSnapshot)
        ensures
            final(self)@ == started_cycle(focus_ms, break_ms, total_focus_target_ms, now_ms, session_id, step_id, interval_id),
            final(self)@.is_snapshot(s, now_ms),
            final(self)@.consistent(),
    {
        let status = self.status();
        if status == TimerStatus::Running || status == TimerStatus::Paused || status == TimerStatus::AwaitingContinue {
            self.reset_active(now_ms);
        }
        self.steps = Vec::new();
        self.intervals = Vec::new();
        self.current_interval_id = None;

        let config = CycleConfig {
            focus_ms: if focus_ms > 1 { focus_ms } else { 1 },
            break_ms: if break_ms > 1 { break_ms } else { 1 },
            total_focus_target_ms: if total_focus_target_ms > 1 { total_focus_target_ms } else { 1 },
        };
        self.session = Some(Session {
            id: session_id.clone(),
            mode: TimerMode::Free,
            target_focus_ms: config.total_focus_target_ms,
            status: TimerStatus::Running,
            started_at_ms: now_ms,
            ended_at_ms: None,
        });
        self.steps.push(SessionStep {
            id: step_id.clone(),
            session_id: session_id.clone(),
            index: 0,
            kind: StepKind::Focus,
            status: StepStatus::Running,
            planned_ms: config.focus_ms,
            actual_ms: 0,
        });
        self.active_step_index = Some(0);
        self.cycle_config = Some(config);
        self.open_interval(now_ms, session_id, step_id, StepKind::Focus, interval_id);
        proof {
            assert(self@ =~= started_cycle(focus_ms, break_ms, total_focus_target_ms, now_ms, session_id, step_id, interval_id));
            law_start_is_consistent(focus_ms, break_ms, total_focus_target_ms, now_ms, session_id, step_id, interval_id);
        }
        self.snapshot_at(now_ms)
    }

    /// Starts a single focus step of `duration_ms` at `now_ms` with the given ids.
    pub fn start_free_session_at(
        &mut self,
        duration_ms: i64,
        now_ms: i64,
        session_id: String,
        step_id: String,
        interval_id: String,
    ) -> (s: TimerSnapshot)
        ensures
            final(self)@ == started_cycle(duration_ms, 0, duration_ms, now_ms, session_id, step_id, interval_id),
            final(self)@.is_snapshot(s, now_ms),
            final(self)@.consistent(),
    {
        self.start_focus_break_cycle_at(duration_ms, 0, duration_ms, now_ms, session_id, step_id, interval_id)
    }

    /// Begins the next step at `now_ms` once the user confirms it; in any other
    /// state nothing changes.
    pub fn continue_cycle_at(&mut self, now_ms: i64, step_id: String, interval_id: String) -> (s: TimerSnapshot)
        ensures
            final(self)@ == old(self)@.continued(now_ms, step_id, interval_id),
            final(self)@.is_snapshot(s, now_ms),
            old(self)@.consistent() && old(self)@.is_fresh_id(step_id) && old(self)@.is_fresh_id(interval_id)
                ==> final(self)@.consistent(),
    {
        if self.status() != TimerStatus::AwaitingContinue {
            return self.snapshot_at(now_ms);
        }
        let next_kind = match self.next_step_kind(now_ms) {
            Some(kind) => kind,
            None => return self.snapshot_at(now_ms),
        };
        let config = match &self.cycle_config {
            Some(config) => *config,
            None => return self.snapshot_at(now_ms),
        };
        let mut session = match &self.session {
            Some(session) => session.clone(),
            None => return self.snapshot_at(now_ms),
        };
        let session_id = session.id.clone();
        let planned_ms = match next_kind {
            StepKind::Focus => config.focus_ms,
            StepKind::ShortBreak => config.break_ms,
        };
        session.status = TimerStatus::Running;
        self.session = Some(session);
        let index = self.steps.len() as u32;
        self.steps.push(SessionStep {
            id: step_id.clone(),
            session_id: session_id.clone(),
            index,
            kind: next_kind,
            status: StepStatus::Running,
            planned_ms,
            actual_ms: 0,
        });
        self.active_step_index = Some(self.steps.len() - 1);
        self.open_interval(now_ms, session_id, step_id, next_kind, interval_id);
        proof {
            assert(final(self)@ =~= old(self)@.continued(now_ms, step_id, interval_id));
            if old(self)@.consistent() && old(self)@.is_fresh_id(step_id) && old(self)@.is_fresh_id(interval_id) {
                law_continue_appends_step(old(self)@, now_ms, step_id, interval_id);
            }
        }
        self.snapshot_at(now_ms)
    }

    /// Pauses the running step at `now_ms`, closing its interval; in any
    /// other state nothing changes.
    pub fn pause_at(&mut self, now_ms: i64) -> (s: TimerSnapshot)
        ensures
            final(self)@ == old(self)@.paused(now_ms),
            final(self)@.is_snapshot(s, now_ms),
            old(self)@.consistent() ==> final(self)@.consistent(),
    {
        if self.status() != TimerStatus::Running {
            return self.snapshot_at(now_ms);
        }
        self.close_current_interval(now_ms);
        match &self.session {
            Some(session) => {
                let mut session = session.clone();
                session.status = TimerStatus::Paused;
                self.session = Some(session);
            },
            None => {},
        }
        match self.current_step_index() {
            Some(i) => {
                let mut step = self.steps[i].clone();
                step.status = StepStatus::Paused;
                self.steps.set(i, step);
            },
            None => {},
        }
        proof {
            assert(final(self)@ =~= old(self)@.paused(now_ms));
            if old(self)@.consistent() {
                law_pause_keeps_focus_time(old(self)@, now_ms, now_ms);
            }
        }
        self.snapshot_at(now_ms)
    }

    /// Resumes the paused step at `now_ms` in a new interval with the id
    /// `interval_id`; in any other state nothing changes.
    pub fn resume_at(&mut self, now_ms: i64, interval_id: String) -> (s: TimerSnapshot)
        ensures
            final(self)@ == old(self)@.resumed(now_ms, interval_id),
            final(self)@.is_snapshot(s, now_ms),
            old(self)@.consistent() && old(self)@.is_fresh_id(interval_id) ==> final(self)@.consistent(),
    {
        if self.status() != TimerStatus::Paused {
            return self.snapshot_at(now_ms);
        }
        let mut session = match &self.session {
            Some(session) => session.clone(),
            None => return self.snapshot_at(now_ms),
        };
        let i = match self.current_step_index() {
            Some(i) => i,
            None => return self.snapshot_at(now_ms),
        };
        let session_id = session.id.clone();
        let mut step = self.steps[i].clone();
        let step_id = step.id.clone();
        let kind = step.kind;
        session.status = TimerStatus::Running;
        self.session = Some(session);
        step.status = StepStatus::Running;
        self.steps.set(i, step);
        self.open_interval(now_ms, session_id, step_id, kind, interval_id);
        proof {
            assert(final(self)@ =~= old(self)@.resumed(now_ms, interval_id));
            if old(self)@.consistent() && old(self)@.is_fresh_id(interval_id) {
                law_resume_opens_interval(old(self)@, now_ms, interval_id);
            }
        }
        self.snapshot_at(now_ms)
    }

    /// Drops the session at `now_ms`, closing its running interval.
    pub fn reset_at(&mut self, now_ms: i64) -> (s: TimerSnapshot)
        ensures
            final(self)@ == old(self)@.reset_active(now_ms),
            is_idle_snapshot(s, now_ms),
            old(self)@.consistent() ==> final(self)@.consistent(),
    {
        self.reset_active(now_ms);
        proof {
            if old(self)@.consistent() {
                law_reset_clears_session(old(self)@, now_ms);
            }
        }
        TimerSnapshot::idle(now_ms)
    }

    /// Completes the running step if it has reached its planned duration at
    /// `now_ms`; tells whether it did.
    pub fn complete_if_due_at(&mut self, now_ms: i64) -> (completed: bool)
        ensures
            completed == old(self)@.is_due(now_ms),
            final(self)@ == old(self)@.after_completion_check(now_ms),
            old(self)@.consistent() ==> final(self)@.consistent(),
    {
        if self.status() != TimerStatus::Running {
            return false;
        }
        let current = self.current_step_index();
        let planned_ms: i64 = match current {
            Some(i) => self.steps[i].planned_ms,
            None => 0,
        };
        if self.active_step_elapsed_at(now_ms) < planned_ms {
            return false;
        }
        let ghost before = self@;
        self.close_current_interval(now_ms);
        match current {
            Some(i) => {
                let mut step = self.steps[i].clone();
                step.actual_ms = step.planned_ms;
                step.status = StepStatus::Completed;
                self.steps.set(i, step);
            },
            None => {},
        }
        let target: i64 = match &self.cycle_config {
            Some(config) => config.total_focus_target_ms,
            None => planned_ms,
        };
        let focus_target_reached = self.total_focus_elapsed_at(now_ms) >= (target as i128);
        match &self.session {
            Some(session) => {
                let mut session = session.clone();
                if focus_target_reached {
                    session.status = TimerStatus::Completed;
                    session.ended_at_ms = Some(now_ms);
                } else {
                    session.status = TimerStatus::AwaitingContinue;
                }
                self.session = Some(session);
            },
            None => {},
        }
        proof {
            assert(final(self)@ =~= before.completed(now_ms));
            if before.consistent() {
                law_completion(before, now_ms, now_ms);
            }
        }
        true
    }

    /// The session, its steps and its running interval, if there is a session.
    pub fn active_state(&self) -> (r: Option<ActiveTimerState>)
        ensures
            match r {
                Some(a) => {
                    &&& self@.session == Some(a.session)
                    &&& a.steps@ == self@.steps
                    &&& a.current_interval == self@.current_interval()
                },
                None => self@.session is None,
            },
    {
        let session = match &self.session {
            Some(session) => session.clone(),
            None => return None,
        };
        Some(ActiveTimerState {
            session,
            steps: clone_steps(&self.steps),
            current_interval: match self.current_interval_index() {
                Some(k) => Some(self.intervals[k].clone()),
                None => None,
            },
        })
    }

    pub fn current_session(&self) -> (r: Option<Session>)
        ensures
            r == self@.session,
    {
        match &self.session {
            Some(session) => Some(session.clone()),
            None => None,
        }
    }

    pub fn current_step(&self) -> (r: Option<SessionStep>)
        ensures
            r == self@.current_step(),
    {
        match self.current_step_index() {
            Some(i) => Some(self.steps[i].clone()),
            None => None,
        }
    }

    pub fn current_steps(&self) -> (r: Vec<SessionStep>)
        ensures
            r@ == self@.steps,
    {
        clone_steps(&self.steps)
    }

    /// The first recorded interval with the id `interval_id`.
    pub fn interval(&self, interval_id: &str) -> (r: Option<TimeInterval>)
        ensures
            r == (match find_interval(self@.intervals, interval_id@, false) {
                Some(k) => Some(self@.intervals[k]),
                None => None,
            }),
    {
        let id = interval_id.to_owned();
        match self.find_interval(&id, false) {
            Some(k) => Some(self.intervals[k].clone()),
            None => None,
        }
    }

    /// The id of the running interval, if any.
    pub fn current_interval_id(&self) -> (r: Option<String>)
        ensures
            r == self@.current_interval_id,
    {
        clone_string_option(&self.current_interval_id)
    }

    /// The snapshot of the engine now.
    pub fn snapshot(&mut self) -> (s: TimerSnapshot)
        ensures
            final(self)@ == old(self)@,
            old(self)@.is_snapshot(s, s.now_ms),
            old(self)@.consistent() ==> snapshot_is_coherent(s),
    {
        let now_ms = self.clock.now_ms();
        self.snapshot_at(now_ms)
    }

    /// Starts a single focus step of `duration_ms` now, replacing any session.
    pub fn start_free_session(&mut self, duration_ms: i64) -> (s: TimerSnapshot)
        ensures
            exists|session_id: String, step_id: String, interval_id: String| {
                &&& session_id@.len() == 36 && step_id@.len() == 36 && interval_id@.len() == 36
                &&& final(self)@ == started_cycle(duration_ms, 0, duration_ms, s.now_ms, session_id, step_id, interval_id)
            },
            final(self)@.is_snapshot(s, s.now_ms),
            final(self)@.consistent(),
    {
        self.start_focus_break_cycle(duration_ms, 0, duration_ms)
    }

    /// Starts a focus/break cycle now, replacing any session.
    pub fn start_focus_break_cycle(&mut self, focus_ms: i64, break_ms: i64, total_focus_target_ms: i64) -> (s: TimerSnapshot)
        ensures
            exists|session_id: String, step_id: String, interval_id: String| {
                &&& session_id@.len() == 36 && step_id@.len() == 36 && interval_id@.len() == 36
                &&& final(self)@ == started_cycle(focus_ms, break_ms, total_focus_target_ms, s.now_ms, session_id, step_id, interval_id)
            },
            final(self)@.is_snapshot(s, s.now_ms),
            final(self)@.consistent(),
    {
        let now_ms = self.clock.now_ms();
        let session_id = new_id();
        let step_id = new_id();
        let interval_id = new_id();
        self.start_focus_break_cycle_at(focus_ms, break_ms, total_focus_target_ms, now_ms, session_id, step_id, interval_id)
    }

    /// Begins the next step now once the user confirms it.
    pub fn continue_cycle(&mut self) -> (s: TimerSnapshot)
        ensures
            exists|step_id: String, interval_id: String| {
                &&& step_id@.len() == 36 && interval_id@.len() == 36
                &&& final(self)@ == old(self)@.continued(s.now_ms, step_id, interval_id)
                &&& (old(self)@.consistent() && old(self)@.is_fresh_id(step_id) && old(self)@.is_fresh_id(interval_id)
                    ==> final(self)@.consistent())
            },
            final(self)@.is_snapshot(s, s.now_ms),
    {
        let now_ms = self.clock.now_ms();
        let step_id = new_id();
        let interval_id = new_id();
        self.continue_cycle_at(now_ms, step_id, interval_id)
    }

    /// Pauses the running step now.
    pub fn pause(&mut self) -> (s: TimerSnapshot)
        ensures
            final(self)@ == old(self)@.paused(s.now_ms),
            final(self)@.is_snapshot(s, s.now_ms),
            old(self)@.consistent() ==> final(self)@.consistent(),
    {
        let now_ms = self.clock.now_ms();
        self.pause_at(now_ms)
    }

    /// Resumes the paused step now.
    pub fn resume(&mut self) -> (s: TimerSnapshot)
        ensures
            exists|interval_id: String| #![trigger old(self)@.resumed(s.now_ms, interval_id)] {
                &&& interval_id@.len() == 36
                &&& final(self)@ == old(self)@.resumed(s.now_ms, interval_id)
                &&& (old(self)@.consistent() && old(self)@.is_fresh_id(interval_id) ==> final(self)@.consistent())
            },
            final(self)@.is_snapshot(s, s.now_ms),
    {
        let now_ms = self.clock.now_ms();
        let interval_id = new_id();
        self.resume_at(now_ms, interval_id)
    }

    /// Drops the session now.
    pub fn reset(&mut self) -> (s: TimerSnapshot)
        ensures
            final(self)@ == old(self)@.reset_active(s.now_ms),
            is_idle_snapshot(s, s.now_ms),
            old(self)@.consistent() ==> final(self)@.consistent(),
    {
        let now_ms = self.clock.now_ms();
        self.reset_at(now_ms)
    }

    /// Completes the running step if it is due now.
    pub fn complete_if_due(&mut self) -> (completed: bool)
        ensures
            exists|now_ms: i64| {
                &&& completed == old(self)@.is_due(now_ms)
                &&& final(self)@ == old(self)@.after_completion_check(now_ms)
            },
            old(self)@.consistent() ==> final(self)@.consistent(),
    {
        let now_ms = self.clock.now_ms();
        self.complete_if_due_at(now_ms)
    }
}

} // verus!
