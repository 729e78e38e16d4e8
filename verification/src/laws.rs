use vstd::prelude::*;

use crate::models::{SessionStep, StepKind, StepStatus, TimeInterval, TimerStatus};
use crate::snapshot::TimerSnapshot;
use crate::state::snapshot_is_coherent;
use crate::state::{
    clamp_i64, elapsed_between, find_interval, interval_matches, is_first_match, lemma_first_match_unique,
    started_cycle, EngineState,
};

verus! {

proof fn lemma_find_some(ivs: Seq<TimeInterval>, id: Seq<char>, open_only: bool)
    ensures
        find_interval(ivs, id, open_only) matches Some(k) ==> is_first_match(ivs, id, open_only, k),
{
}

/// A first match by id that is still open is also the first open match.
proof fn lemma_find_open_agrees(ivs: Seq<TimeInterval>, id: Seq<char>, k: int)
    requires
        find_interval(ivs, id, false) == Some(k),
        ivs[k].ended_at_ms is None,
    ensures
        find_interval(ivs, id, true) == Some(k),
{
    lemma_find_some(ivs, id, false);
    assert forall|j: int| 0 <= j < k implies !interval_matches(#[trigger] ivs[j], id, true) by {
        assert(!interval_matches(ivs[j], id, false));
    }
    assert(is_first_match(ivs, id, true, k));
    lemma_first_match_unique(ivs, id, true, k);
}

/// An interval pushed with a fresh id is the first match of its id.
proof fn lemma_find_pushed(ivs: Seq<TimeInterval>, iv: TimeInterval, open_only: bool)
    requires
        forall|k: int| 0 <= k < ivs.len() ==> (#[trigger] ivs[k]).id@ != iv.id@,
        open_only ==> iv.ended_at_ms is None,
    ensures
        find_interval(ivs.push(iv), iv.id@, open_only) == Some(ivs.len() as int),
{
    let s = ivs.push(iv);
    assert forall|j: int| 0 <= j < ivs.len() implies !interval_matches(#[trigger] s[j], iv.id@, open_only) by {
        assert(s[j] == ivs[j]);
    }
    assert(is_first_match(s, iv.id@, open_only, ivs.len() as int));
    lemma_first_match_unique(s, iv.id@, open_only, ivs.len() as int);
}

/// Focus totals compare as their terms do.
pub proof fn lemma_focus_total_le(v1: EngineState, v2: EngineState, s1: Seq<SessionStep>, s2: Seq<SessionStep>, t1: i64, t2: i64)
    requires
        s1.len() == s2.len(),
        forall|i: int| 0 <= i < s1.len() ==> v1.focus_term(#[trigger] s1[i], t1) <= v2.focus_term(s2[i], t2),
    ensures
        v1.focus_total_of(s1, t1) <= v2.focus_total_of(s2, t2),
    decreases s1.len(),
{
    if s1.len() > 0 {
        let n = s1.len() - 1;
        assert(v1.focus_term(s1[n], t1) <= v2.focus_term(s2[n], t2));
        assert forall|i: int| 0 <= i < s1.drop_last().len() implies v1.focus_term(#[trigger] s1.drop_last()[i], t1)
            <= v2.focus_term(s2.drop_last()[i], t2) by {
            assert(s1.drop_last()[i] == s1[i]);
            assert(s2.drop_last()[i] == s2[i]);
        }
        lemma_focus_total_le(v1, v2, s1.drop_last(), s2.drop_last(), t1, t2);
    }
}

/// Focus totals are equal when their terms are.
pub proof fn lemma_focus_total_eq(v1: EngineState, v2: EngineState, s1: Seq<SessionStep>, s2: Seq<SessionStep>, t1: i64, t2: i64)
    requires
        s1.len() == s2.len(),
        forall|i: int| 0 <= i < s1.len() ==> v1.focus_term(#[trigger] s1[i], t1) == v2.focus_term(s2[i], t2),
    ensures
        v1.focus_total_of(s1, t1) == v2.focus_total_of(s2, t2),
{
    lemma_focus_total_le(v1, v2, s1, s2, t1, t2);
    lemma_focus_total_le(v2, v1, s2, s1, t2, t1);
}

/// A freshly started cycle is consistent and running, with no focus time yet.
pub proof fn law_start_is_consistent(
    focus_ms: i64,
    break_ms: i64,
    total_focus_target_ms: i64,
    now: i64,
    session_id: String,
    step_id: String,
    interval_id: String,
)
    ensures
        started_cycle(focus_ms, break_ms, total_focus_target_ms, now, session_id, step_id, interval_id).consistent(),
        started_cycle(focus_ms, break_ms, total_focus_target_ms, now, session_id, step_id, interval_id).status()
            == TimerStatus::Running,
        started_cycle(focus_ms, break_ms, total_focus_target_ms, now, session_id, step_id, interval_id).total_focus_elapsed_at(now)
            == 0,
{
    let v = started_cycle(focus_ms, break_ms, total_focus_target_ms, now, session_id, step_id, interval_id);
    lemma_find_pushed(Seq::empty(), v.intervals[0], false);
    assert(Seq::<TimeInterval>::empty().push(v.intervals[0]) =~= v.intervals);
    assert(v.steps.drop_last() =~= Seq::<SessionStep>::empty());
    assert(v.current_interval() == Some(v.intervals[0]));
    assert(v.open_elapsed_for(v.steps[0], now) == 0);
    assert(v.focus_term(v.steps[0], now) == 0);
    assert(v.focus_total_of(v.steps.drop_last(), now) == 0);
}

/// Reset leaves no session, no steps and no interval running, whatever the state.
pub proof fn law_reset_clears_session(v: EngineState, now: i64)
    requires
        v.consistent(),
    ensures
        v.reset_active(now).consistent(),
        v.reset_active(now).status() == TimerStatus::Idle,
        v.reset_active(now).session is None,
        v.reset_active(now).steps.len() == 0,
        v.reset_active(now).current_interval() is None,
        forall|k: int| 0 <= k < v.reset_active(now).intervals.len()
            ==> (#[trigger] v.reset_active(now).intervals[k]).ended_at_ms is Some,
{
    lemma_close_consistent(v, now);
    let c = v.close_current_interval(now);
    let r = v.reset_active(now);
    assert forall|k: int| 0 <= k < r.intervals.len() implies (#[trigger] r.intervals[k]).ended_at_ms is Some by {
        assert(r.intervals[k] == c.intervals[k]);
    }
}

/// Closing the running interval keeps progress within plan and leaves every
/// interval closed.
proof fn lemma_close_consistent(v: EngineState, now: i64)
    requires
        v.consistent(),
    ensures
        v.close_current_interval(now).steps_within_plan(),
        v.close_current_interval(now).step_ids_distinct(),
        v.close_current_interval(now).current_interval_id is None,
        v.close_current_interval(now).session == v.session,
        v.close_current_interval(now).cycle_config == v.cycle_config,
        v.close_current_interval(now).active_step_index == v.active_step_index,
        v.close_current_interval(now).steps.len() == v.steps.len(),
        v.close_current_interval(now).intervals.len() == v.intervals.len(),
        forall|i: int| 0 <= i < v.steps.len() ==> {
            &&& (#[trigger] v.close_current_interval(now).steps[i]).id == v.steps[i].id
            &&& v.close_current_interval(now).steps[i].kind == v.steps[i].kind
            &&& v.close_current_interval(now).steps[i].planned_ms == v.steps[i].planned_ms
            &&& v.close_current_interval(now).steps[i].status == v.steps[i].status
        },
        forall|k: int| 0 <= k < v.intervals.len() ==> (#[trigger] v.close_current_interval(now).intervals[k]).ended_at_ms is Some,
{
    let c = v.close_current_interval(now);
    match v.current_interval_id {
        None => {
            assert forall|k: int| 0 <= k < v.intervals.len() implies (#[trigger] c.intervals[k]).ended_at_ms is Some by {
                if v.intervals[k].ended_at_ms is None {
                    assert(v.current_interval_index() == Some(k));
                }
            }
        },
        Some(id) => {
            lemma_find_some(v.intervals, id@, false);
            lemma_find_some(v.intervals, id@, true);
            let k0 = v.current_interval_index();
            if v.status() == TimerStatus::Running {
                let k = k0.unwrap();
                lemma_find_open_agrees(v.intervals, id@, k);
            } else {
                assert(false);
            }
            let k = k0.unwrap();
            let elapsed = clamp_i64(elapsed_between(v.intervals[k].started_at_ms, now));
            assert(elapsed >= 0);
            assert forall|i: int| 0 <= i < c.steps.len() implies {
                &&& 1 <= #[trigger] c.steps[i].planned_ms
                &&& 0 <= c.steps[i].actual_ms <= c.steps[i].planned_ms
            } by {
                assert(1 <= v.steps[i].planned_ms);
            }
            assert forall|j: int| 0 <= j < v.intervals.len() implies (#[trigger] c.intervals[j]).ended_at_ms is Some by {
                if j != k && v.intervals[j].ended_at_ms is None {
                    assert(v.current_interval_index() == Some(j));
                }
            }
        },
    }
}

/// In a running session only the current step has running time: every other
/// step contributes its recorded progress.
proof fn lemma_running_terms(v: EngineState, now: i64, i: int)
    requires
        v.consistent(),
        v.status() == TimerStatus::Running,
        0 <= i < v.steps.len(),
        Some(i) != v.current_step_index(),
    ensures
        v.open_elapsed_for(v.steps[i], now) == 0,
        v.step_elapsed_at(v.steps[i], now) == v.steps[i].actual_ms,
{
    let cur = v.current_step_index().unwrap();
    if i < cur {
        assert(v.steps[i].id@ != v.steps[cur].id@);
    } else {
        assert(v.steps[cur].id@ != v.steps[i].id@);
    }
}

/// Without a running interval, every step contributes its recorded progress.
proof fn lemma_stopped_terms(v: EngineState, t: i64)
    requires
        v.steps_within_plan(),
        v.current_interval_id is None,
    ensures
        forall|i: int| 0 <= i < v.steps.len() ==> v.step_elapsed_at(#[trigger] v.steps[i], t) == v.steps[i].actual_ms,
{
}

/// Closing the running interval at `now` turns the running time of the
/// current step at `now` into recorded progress: no step's share changes.
proof fn lemma_close_terms(v: EngineState, now: i64, later: i64)
    requires
        v.consistent(),
        v.status() == TimerStatus::Running,
    ensures
        v.close_current_interval(now).current_interval() is None,
        forall|i: int| 0 <= i < v.steps.len() ==> v.step_elapsed_at(#[trigger] v.steps[i], now)
            == v.close_current_interval(now).steps[i].actual_ms,
        forall|i: int| 0 <= i < v.steps.len() ==> v.focus_term(#[trigger] v.steps[i], now)
            == v.close_current_interval(now).focus_term(v.close_current_interval(now).steps[i], later),
{
    lemma_close_consistent(v, now);
    let c = v.close_current_interval(now);
    let id = v.current_interval_id.unwrap();
    let k = v.current_interval_index().unwrap();
    let cur = v.current_step_index().unwrap();
    lemma_find_open_agrees(v.intervals, id@, k);
    lemma_stopped_terms(c, later);
    let e = elapsed_between(v.intervals[k].started_at_ms, now);
    assert(v.open_elapsed_for(v.steps[cur], now) == e);
    assert forall|i: int| 0 <= i < v.steps.len() implies v.step_elapsed_at(#[trigger] v.steps[i], now)
        == c.steps[i].actual_ms by {
        if i != cur {
            lemma_running_terms(v, now, i);
        }
    }
    assert forall|i: int| 0 <= i < v.steps.len() implies v.focus_term(#[trigger] v.steps[i], now)
        == c.focus_term(c.steps[i], later) by {
        assert(v.step_elapsed_at(v.steps[i], now) == c.steps[i].actual_ms);
    }
}

/// Pausing closes the running interval and keeps the focus time reached at
/// the pause instant; while paused, the focus time does not grow.
pub proof fn law_pause_keeps_focus_time(v: EngineState, now: i64, later: i64)
    requires
        v.consistent(),
        v.status() == TimerStatus::Running,
    ensures
        v.paused(now).consistent(),
        v.paused(now).status() == TimerStatus::Paused,
        v.paused(now).current_interval() is None,
        v.paused(now).total_focus_elapsed_at(later) == v.total_focus_elapsed_at(now),
{
    lemma_close_consistent(v, now);
    lemma_close_terms(v, now, later);
    let c = v.close_current_interval(now);
    let p = v.paused(now);
    assert forall|i: int| 0 <= i < v.steps.len() implies v.focus_term(#[trigger] v.steps[i], now)
        == p.focus_term(p.steps[i], later) by {
        assert(c.focus_term(c.steps[i], later) == p.focus_term(p.steps[i], later));
    }
    lemma_focus_total_eq(v, p, v.steps, p.steps, now, later);
    assert forall|k: int| 0 <= k < p.intervals.len() && (#[trigger] p.intervals[k]).ended_at_ms is None
        implies p.current_interval_index() == Some(k) by {
        assert(c.intervals[k].ended_at_ms is Some);
    }
}

/// While no interval runs (idle, paused, waiting for the next step,
/// completed), the focus time does not depend on the time.
pub proof fn law_stopped_time_does_not_count(v: EngineState, t1: i64, t2: i64)
    requires
        v.consistent(),
        v.status() != TimerStatus::Running,
    ensures
        v.total_focus_elapsed_at(t1) == v.total_focus_elapsed_at(t2),
{
    lemma_stopped_terms(v, t1);
    lemma_stopped_terms(v, t2);
    assert forall|i: int| 0 <= i < v.steps.len() implies v.focus_term(#[trigger] v.steps[i], t1)
        == v.focus_term(v.steps[i], t2) by {
        assert(v.step_elapsed_at(v.steps[i], t1) == v.step_elapsed_at(v.steps[i], t2));
    }
    lemma_focus_total_eq(v, v, v.steps, v.steps, t1, t2);
}

/// Running time of a break never counts toward the focus time.
pub proof fn law_break_time_does_not_count(v: EngineState, t1: i64, t2: i64)
    requires
        v.consistent(),
        v.status() == TimerStatus::Running,
        v.current_step() matches Some(step) && step.kind == StepKind::ShortBreak,
    ensures
        v.total_focus_elapsed_at(t1) == v.total_focus_elapsed_at(t2),
{
    let cur = v.current_step_index().unwrap();
    assert forall|i: int| 0 <= i < v.steps.len() implies v.focus_term(#[trigger] v.steps[i], t1)
        == v.focus_term(v.steps[i], t2) by {
        if i != cur {
            lemma_running_terms(v, t1, i);
            lemma_running_terms(v, t2, i);
        }
    }
    lemma_focus_total_eq(v, v, v.steps, v.steps, t1, t2);
}

/// While a step runs, the focus time never decreases as time goes on.
pub proof fn law_focus_time_grows_while_running(v: EngineState, t1: i64, t2: i64)
    requires
        v.consistent(),
        v.status() == TimerStatus::Running,
        t1 <= t2,
    ensures
        v.total_focus_elapsed_at(t1) <= v.total_focus_elapsed_at(t2),
{
    let cur = v.current_step_index().unwrap();
    assert forall|i: int| 0 <= i < v.steps.len() implies v.focus_term(#[trigger] v.steps[i], t1)
        <= v.focus_term(v.steps[i], t2) by {
        if i != cur {
            lemma_running_terms(v, t1, i);
            lemma_running_terms(v, t2, i);
        }
    }
    lemma_focus_total_le(v, v, v.steps, v.steps, t1, t2);
}

/// Resuming opens a new interval that starts at the resume instant; the
/// focus time at that instant is what it was while paused.
pub proof fn law_resume_opens_interval(v: EngineState, now: i64, interval_id: String)
    requires
        v.consistent(),
        v.status() == TimerStatus::Paused,
        v.is_fresh_id(interval_id),
    ensures
        v.resumed(now, interval_id).consistent(),
        v.resumed(now, interval_id).status() == TimerStatus::Running,
        v.resumed(now, interval_id).current_interval() matches Some(iv) && iv.id == interval_id
            && iv.started_at_ms == now && iv.ended_at_ms is None,
        v.resumed(now, interval_id).total_focus_elapsed_at(now) == v.total_focus_elapsed_at(now),
{
    let r = v.resumed(now, interval_id);
    let cur = v.current_step_index().unwrap();
    let iv = r.intervals.last();
    assert(r.intervals == v.intervals.push(iv));
    lemma_find_pushed(v.intervals, iv, false);
    lemma_stopped_terms(v, now);
    assert(r.current_interval() == Some(iv));
    assert forall|i: int, j: int| 0 <= i < j < r.steps.len() implies #[trigger] r.steps[i].id@ != #[trigger] r.steps[j].id@ by {
        assert(v.steps[i].id@ != v.steps[j].id@);
    }
    assert forall|i: int| 0 <= i < v.steps.len() implies v.focus_term(#[trigger] v.steps[i], now)
        == r.focus_term(r.steps[i], now) by {
        if i != cur {
            if i < cur {
                assert(v.steps[i].id@ != v.steps[cur].id@);
            } else {
                assert(v.steps[cur].id@ != v.steps[i].id@);
            }
        }
    }
    lemma_focus_total_eq(v, r, v.steps, r.steps, now, now);
    assert forall|k: int| 0 <= k < r.intervals.len() && (#[trigger] r.intervals[k]).ended_at_ms is None
        implies r.current_interval_index() == Some(k) by {
        if k < v.intervals.len() {
            assert(r.intervals[k] == v.intervals[k]);
            assert(v.current_interval_index() == Some(k));
        }
    }
}

/// Confirming the next step appends it, running from the confirmation
/// instant with the planned duration of its kind; the focus time at that
/// instant is unchanged.
pub proof fn law_continue_appends_step(v: EngineState, now: i64, step_id: String, interval_id: String)
    requires
        v.consistent(),
        v.status() == TimerStatus::AwaitingContinue,
        v.steps.len() < usize::MAX,
        v.is_fresh_id(step_id),
        v.is_fresh_id(interval_id),
    ensures
        v.continued(now, step_id, interval_id).consistent(),
        v.continued(now, step_id, interval_id).total_focus_elapsed_at(now) == v.total_focus_elapsed_at(now),
        v.next_step_kind(now) is None ==> v.continued(now, step_id, interval_id) == v,
        v.next_step_kind(now) matches Some(kind) ==> {
            let r = v.continued(now, step_id, interval_id);
            &&& r.status() == TimerStatus::Running
            &&& r.steps.len() == v.steps.len() + 1
            &&& r.current_step() matches Some(step) && {
                &&& step.id == step_id
                &&& step.kind == kind
                &&& step.actual_ms == 0
                &&& step.planned_ms == (if kind == StepKind::Focus {
                    v.cycle_config.unwrap().focus_ms
                } else {
                    v.cycle_config.unwrap().break_ms
                })
            }
            &&& r.current_interval() matches Some(iv) && iv.id == interval_id && iv.started_at_ms == now
        },
{
    if let Some(kind) = v.next_step_kind(now) {
        let r = v.continued(now, step_id, interval_id);
        let step = r.steps.last();
        let iv = r.intervals.last();
        assert(r.steps == v.steps.push(step));
        assert(r.intervals == v.intervals.push(iv));
        lemma_find_pushed(v.intervals, iv, false);
        lemma_stopped_terms(v, now);
        assert(r.current_interval() == Some(iv));
        assert forall|i: int, j: int| 0 <= i < j < r.steps.len() implies #[trigger] r.steps[i].id@ != #[trigger] r.steps[j].id@ by {
            if j < v.steps.len() {
                assert(v.steps[i].id@ != v.steps[j].id@);
            } else {
                assert(r.steps[i] == v.steps[i]);
            }
        }
        assert forall|i: int| 0 <= i < v.steps.len() implies v.focus_term(#[trigger] v.steps[i], now)
            == r.focus_term(r.steps[i], now) by {
            assert(r.steps[i] == v.steps[i]);
        }
        lemma_focus_total_eq(v, r, v.steps, v.steps, now, now);
        assert(r.steps.drop_last() =~= v.steps);
        assert(r.focus_term(step, now) == 0);
        assert forall|k: int| 0 <= k < r.intervals.len() && (#[trigger] r.intervals[k]).ended_at_ms is None
            implies r.current_interval_index() == Some(k) by {
            if k < v.intervals.len() {
                assert(r.intervals[k] == v.intervals[k]);
                assert(v.current_interval_index() == Some(k));
            }
        }
        assert forall|i: int| 0 <= i < r.steps.len() implies {
            &&& 1 <= #[trigger] r.steps[i].planned_ms
            &&& 0 <= r.steps[i].actual_ms <= r.steps[i].planned_ms
        } by {
            if i < v.steps.len() {
                assert(r.steps[i] == v.steps[i]);
            }
        }
        assert(r.current_step_index() == Some(v.steps.len() as int));
    }
}

/// A step that is due is completed: its progress becomes its planned
/// duration, its interval is closed, and the session is completed exactly
/// when the focus target is reached; otherwise it waits for the user. A
/// completed session offers no next step.
pub proof fn law_completion(v: EngineState, now: i64, later: i64)
    requires
        v.consistent(),
        v.is_due(now),
    ensures
        v.completed(now).consistent(),
        v.completed(now).current_interval() is None,
        v.completed(now).current_step() matches Some(step) && step.actual_ms == step.planned_ms
            && step.status == StepStatus::Completed,
        v.completed(now).status() == TimerStatus::Completed || v.completed(now).status() == TimerStatus::AwaitingContinue,
        (v.completed(now).status() == TimerStatus::Completed) == (v.completed(now).total_focus_elapsed_at(now)
            >= v.focus_target()),
        v.completed(now).status() == TimerStatus::Completed ==> v.completed(now).next_step_kind(later) is None,
        !v.completed(now).is_due(later),
        v.completed(now).session matches Some(done) && v.session matches Some(before) && {
            &&& done.id == before.id
            &&& done.started_at_ms == before.started_at_ms
            &&& (done.status == TimerStatus::Completed ==> done.ended_at_ms == Some(now))
            &&& (done.status == TimerStatus::AwaitingContinue ==> done.ended_at_ms == before.ended_at_ms)
        },
        v.completed(now).steps.len() == v.steps.len(),
        v.current_interval_index() matches Some(k) ==> {
            &&& v.completed(now).intervals[k].id == v.intervals[k].id
            &&& v.completed(now).intervals[k].ended_at_ms == Some(now)
        },
{
    let k = v.current_interval_index().unwrap();
    lemma_find_open_agrees(v.intervals, v.current_interval_id.unwrap()@, k);
    lemma_close_consistent(v, now);
    let c = v.close_current_interval(now);
    let r = v.completed(now);
    let cur = v.current_step_index().unwrap();
    assert(r.steps == c.steps.update(cur, r.steps[cur]));
    assert forall|i: int, j: int| 0 <= i < j < r.steps.len() implies #[trigger] r.steps[i].id@ != #[trigger] r.steps[j].id@ by {
        assert(v.steps[i].id@ != v.steps[j].id@);
    }
    assert forall|k: int| 0 <= k < r.intervals.len() && (#[trigger] r.intervals[k]).ended_at_ms is None
        implies r.current_interval_index() == Some(k) by {
        assert(c.intervals[k].ended_at_ms is Some);
    }
    assert forall|i: int| 0 <= i < r.steps.len() implies {
        &&& 1 <= #[trigger] r.steps[i].planned_ms
        &&& 0 <= r.steps[i].actual_ms <= r.steps[i].planned_ms
    } by {
        assert(1 <= c.steps[i].planned_ms);
    }
    let finished = EngineState { session: c.session, ..r };
    assert forall|i: int| 0 <= i < r.steps.len() implies finished.focus_term(#[trigger] r.steps[i], now)
        == r.focus_term(r.steps[i], now) by {
    }
    lemma_focus_total_eq(finished, r, r.steps, r.steps, now, now);
    if r.status() == TimerStatus::Completed {
        law_stopped_time_does_not_count(r, now, later);
    }
}

/// The snapshot shows, for the current step, progress between 0 and the
/// planned duration and the remaining time as their difference.
pub proof fn law_snapshot_remaining(v: EngineState, s: TimerSnapshot, now: i64)
    requires
        v.consistent(),
        v.is_snapshot(s, now),
    ensures
        0 <= s.active_kind_elapsed_ms <= v.planned_of_current(),
        s.remaining_ms == v.planned_of_current() - s.active_kind_elapsed_ms,
        s.remaining_ms >= 0,
{
    if v.status() == TimerStatus::Running {
        let cur = v.current_step_index().unwrap();
        assert(v.open_elapsed_for(v.steps[cur], now) >= 0);
    }
}

/// Pausing, resuming or confirming the next step in a state where it makes
/// no sense changes nothing; a completion check that is not due changes nothing.
pub proof fn law_out_of_place_requests_change_nothing(v: EngineState, now: i64, step_id: String, interval_id: String)
    ensures
        v.status() != TimerStatus::Running ==> v.paused(now) == v,
        v.status() != TimerStatus::Paused ==> v.resumed(now, interval_id) == v,
        v.status() != TimerStatus::AwaitingContinue ==> v.continued(now, step_id, interval_id) == v,
        !v.is_due(now) ==> v.after_completion_check(now) == v,
{
}

/// A recorded interval that is still open has no elapsed time; a closed one
/// has a non-negative elapsed time, which is its end minus its start when the
/// clock did not go backwards.
pub proof fn law_interval_times(v: EngineState, k: int)
    requires
        v.consistent(),
        0 <= k < v.intervals.len(),
    ensures
        v.intervals[k].ended_at_ms is None ==> v.intervals[k].elapsed_ms == 0,
        v.intervals[k].ended_at_ms is Some ==> v.intervals[k].elapsed_ms >= 0,
        v.intervals[k].ended_at_ms matches Some(end) ==> (v.intervals[k].started_at_ms <= end
            && end - v.intervals[k].started_at_ms <= i64::MAX
            ==> v.intervals[k].elapsed_ms == end - v.intervals[k].started_at_ms),
{
    let iv = v.intervals[k];
    assert(match iv.ended_at_ms {
        None => iv.elapsed_ms == 0,
        Some(end) => iv.elapsed_ms == clamp_i64(elapsed_between(iv.started_at_ms, end)),
    });
}

/// An interval runs exactly while the session runs; it is open and belongs
/// to the current step, with the step's kind.
pub proof fn law_running_interval_belongs_to_current_step(v: EngineState)
    requires
        v.consistent(),
    ensures
        (v.current_interval() is Some) <==> v.status() == TimerStatus::Running,
        v.current_interval() matches Some(iv) ==> {
            &&& iv.ended_at_ms is None
            &&& v.current_step() matches Some(step) && iv.step_id@ == step.id@ && iv.kind == step.kind
        },
{
}

proof fn lemma_within_plan(v: EngineState)
    requires
        v.steps_within_plan(),
    ensures
        forall|i: int| 0 <= i < v.steps.len() ==> 0 <= (#[trigger] v.steps[i]).actual_ms <= v.steps[i].planned_ms,
{
    assert forall|i: int| 0 <= i < v.steps.len() implies 0 <= (#[trigger] v.steps[i]).actual_ms
        <= v.steps[i].planned_ms by {
        assert(1 <= v.steps[i].planned_ms);
    }
}

/// With every step within its plan, the focus total is never negative.
pub proof fn lemma_focus_total_nonneg(v: EngineState, steps: Seq<SessionStep>, t: i64)
    requires
        forall|i: int| 0 <= i < steps.len() ==> 0 <= (#[trigger] steps[i]).actual_ms <= steps[i].planned_ms,
    ensures
        v.focus_total_of(steps, t) >= 0,
    decreases steps.len(),
{
    if steps.len() > 0 {
        assert forall|i: int| 0 <= i < steps.drop_last().len() implies 0 <= (#[trigger] steps.drop_last()[i]).actual_ms
            <= steps.drop_last()[i].planned_ms by {
            assert(steps.drop_last()[i] == steps[i]);
        }
        lemma_focus_total_nonneg(v, steps.drop_last(), t);
        assert(0 <= steps[steps.len() - 1].actual_ms);
        assert(v.open_elapsed_for(steps.last(), t) >= 0);
    }
}

/// Every snapshot of a consistent engine is coherent (see `snapshot_is_coherent`),
/// and a next step is numbered after the recorded steps.
pub proof fn law_snapshot_coherent(v: EngineState, s: TimerSnapshot, now: i64)
    requires
        v.consistent(),
        v.is_snapshot(s, now),
    ensures
        snapshot_is_coherent(s),
        s.next_step matches Some(n) ==> n.index == v.steps.len() as u32,
{
    law_snapshot_remaining(v, s, now);
    lemma_within_plan(v);
    lemma_focus_total_nonneg(v, v.steps, now);
    if let Some(i) = v.current_step_index() {
        assert(0 <= v.steps[i].actual_ms <= v.steps[i].planned_ms);
    }
}

/// Two snapshots of a stopped engine (idle, paused, waiting or completed)
/// taken at different instants differ only in the instant: waiting time never
/// counts.
pub proof fn law_stopped_snapshots_agree(v: EngineState, s1: TimerSnapshot, s2: TimerSnapshot, t1: i64, t2: i64)
    requires
        v.consistent(),
        v.status() != TimerStatus::Running,
        v.is_snapshot(s1, t1),
        v.is_snapshot(s2, t2),
    ensures
        s1.status == s2.status,
        s1.remaining_ms == s2.remaining_ms,
        s1.total_focus_elapsed_ms == s2.total_focus_elapsed_ms,
        s1.active_kind_elapsed_ms == s2.active_kind_elapsed_ms,
        s1.current_step == s2.current_step,
        s1.cycle == s2.cycle,
        s1.cta.kind == s2.cta.kind,
        (match s1.next_step { Some(n) => Some(n.kind), None => None })
            == (match s2.next_step { Some(n) => Some(n.kind), None => None }),
{
    law_stopped_time_does_not_count(v, t1, t2);
}

/// While a step runs, later snapshots show at least as much focus time and
/// progress, and no more remaining time, for the same step.
pub proof fn law_running_snapshots_advance(v: EngineState, s1: TimerSnapshot, s2: TimerSnapshot, t1: i64, t2: i64)
    requires
        v.consistent(),
        v.status() == TimerStatus::Running,
        t1 <= t2,
        v.is_snapshot(s1, t1),
        v.is_snapshot(s2, t2),
    ensures
        s2.status == TimerStatus::Running,
        s1.current_step == s2.current_step,
        s2.total_focus_elapsed_ms >= s1.total_focus_elapsed_ms,
        s2.active_kind_elapsed_ms >= s1.active_kind_elapsed_ms,
        s2.remaining_ms <= s1.remaining_ms,
{
    law_focus_time_grows_while_running(v, t1, t2);
    law_snapshot_remaining(v, s1, t1);
    law_snapshot_remaining(v, s2, t2);
    let cur = v.current_step_index().unwrap();
    assert(v.open_elapsed_for(v.steps[cur], t1) <= v.open_elapsed_for(v.steps[cur], t2));
}

/// Pausing and resuming at the same instant changes neither the time shown
/// nor the step: only a new interval, starting at that instant, runs.
pub proof fn law_pause_resume_round_trip(v: EngineState, t: i64, interval_id: String, s0: TimerSnapshot, s: TimerSnapshot)
    requires
        v.consistent(),
        v.status() == TimerStatus::Running,
        v.is_fresh_id(interval_id),
        v.is_snapshot(s0, t),
        v.paused(t).resumed(t, interval_id).is_snapshot(s, t),
    ensures
        v.paused(t).resumed(t, interval_id).consistent(),
        s.status == TimerStatus::Running,
        s.remaining_ms == s0.remaining_ms,
        s.total_focus_elapsed_ms == s0.total_focus_elapsed_ms,
        s.active_kind_elapsed_ms == s0.active_kind_elapsed_ms,
        (match s.current_step { Some(st) => Some(st.id), None => None })
            == (match s0.current_step { Some(st) => Some(st.id), None => None }),
        s.current_interval_started_at_ms == Some(t),
{
    let p = v.paused(t);
    let r = p.resumed(t, interval_id);
    law_pause_keeps_focus_time(v, t, t);
    lemma_close_terms(v, t, t);
    lemma_close_consistent(v, t);
    let c = v.close_current_interval(t);
    assert(p.is_fresh_id(interval_id)) by {
        assert forall|i: int| 0 <= i < p.steps.len() implies (#[trigger] p.steps[i]).id@ != interval_id@ by {
            assert(p.steps[i].id == v.steps[i].id);
        }
        assert forall|k: int| 0 <= k < p.intervals.len() implies (#[trigger] p.intervals[k]).id@ != interval_id@ by {
            assert(p.intervals[k].id == v.intervals[k].id || p.intervals[k] == c.intervals[k]);
            if p.intervals[k] != v.intervals[k] {
                let kk = v.current_interval_index().unwrap();
                assert(k == kk);
            }
        }
    }
    law_resume_opens_interval(p, t, interval_id);
    let cur = v.current_step_index().unwrap();
    assert(v.step_elapsed_at(v.steps[cur], t) == c.steps[cur].actual_ms);
    lemma_within_plan(p);
    assert(r.current_interval() matches Some(iv) && iv.started_at_ms == t);
    assert(r.open_elapsed_for(r.steps[cur], t) == 0);
}

/// The steps are numbered by their position: 0, 1, 2, ...
pub open spec fn steps_numbered(steps: Seq<SessionStep>) -> bool {
    forall|i: int| 0 <= i < steps.len() ==> (#[trigger] steps[i]).index == i as u32
}

/// The steps whose status is Completed.
pub open spec fn completed_steps_of(steps: Seq<SessionStep>) -> Seq<SessionStep> {
    steps.filter(|st: SessionStep| st.status == StepStatus::Completed)
}

proof fn lemma_completed_count_is_filter(steps: Seq<SessionStep>)
    ensures
        crate::state::completed_count(steps) == completed_steps_of(steps).len(),
    decreases steps.len(),
{
    reveal(Seq::filter);
    if steps.len() > 0 {
        lemma_completed_count_is_filter(steps.drop_last());
    }
}

/// A snapshot counts as completed exactly the steps whose status is
/// Completed: running, paused, pending or cancelled steps do not count.
pub proof fn law_snapshot_counts_completed_steps(v: EngineState, s: TimerSnapshot, now: i64)
    requires
        v.is_snapshot(s, now),
        v.cycle_config is Some,
    ensures
        s.cycle matches Some(c) && c.completed_steps == completed_steps_of(v.steps).len() as u32,
{
    lemma_completed_count_is_filter(v.steps);
}

/// Starting a cycle: the session's focus target is the requested total focus
/// target (at least 1 ms), the same target that the snapshot and its cycle
/// show; the first step is a focus step numbered 0 with the requested focus
/// duration (at least 1 ms) still to run, and no step has completed yet.
pub proof fn law_start_sets_targets(
    focus_ms: i64,
    break_ms: i64,
    total_focus_target_ms: i64,
    now: i64,
    session_id: String,
    step_id: String,
    interval_id: String,
    s: TimerSnapshot,
)
    requires
        started_cycle(focus_ms, break_ms, total_focus_target_ms, now, session_id, step_id, interval_id).is_snapshot(s, now),
    ensures
        ({
            let v = started_cycle(focus_ms, break_ms, total_focus_target_ms, now, session_id, step_id, interval_id);
            let target: i64 = if total_focus_target_ms >= 1 { total_focus_target_ms } else { 1 };
            let focus: i64 = if focus_ms >= 1 { focus_ms } else { 1 };
            &&& v.session matches Some(session) && session.target_focus_ms == target && session.started_at_ms == now
            &&& s.total_focus_target_ms == target
            &&& s.cycle matches Some(c) && c.total_focus_target_ms == target && c.focus_ms == focus
                && c.completed_steps == 0
            &&& s.current_step matches Some(st) && st.index == 0 && st.kind == StepKind::Focus && st.planned_ms == focus
                && st.actual_ms == 0
            &&& s.remaining_ms == focus
            &&& steps_numbered(v.steps)
        }),
{
    let v = started_cycle(focus_ms, break_ms, total_focus_target_ms, now, session_id, step_id, interval_id);
    law_start_is_consistent(focus_ms, break_ms, total_focus_target_ms, now, session_id, step_id, interval_id);
    law_snapshot_counts_completed_steps(v, s, now);
    reveal(Seq::filter);
    assert(v.steps.drop_last() =~= Seq::<SessionStep>::empty());
    assert(completed_steps_of(v.steps.drop_last()) =~= Seq::<SessionStep>::empty());
    lemma_find_pushed(Seq::empty(), v.intervals[0], false);
    assert(Seq::<TimeInterval>::empty().push(v.intervals[0]) =~= v.intervals);
    assert(v.open_elapsed_for(v.steps[0], now) == 0);
}

/// The step begun by confirming the next step is numbered after the steps
/// recorded before it: the number that the snapshot taken just before
/// announced for the next step.
pub proof fn law_continue_numbers_next_step(v: EngineState, now: i64, step_id: String, interval_id: String, s0: TimerSnapshot)
    requires
        v.consistent(),
        v.status() == TimerStatus::AwaitingContinue,
        v.next_step_kind(now) is Some,
        v.steps.len() < usize::MAX,
        v.is_snapshot(s0, now),
    ensures
        v.continued(now, step_id, interval_id).current_step() matches Some(st) && st.index == v.steps.len() as u32,
        s0.next_step matches Some(n) && n.index == v.steps.len() as u32,
        v.continued(now, step_id, interval_id).steps.len() == v.steps.len() + 1,
{
    let r = v.continued(now, step_id, interval_id);
    assert(r.current_step_index() == Some(v.steps.len() as int));
}

/// Every operation keeps the steps numbered by position, so no two steps of
/// a session share a number.
pub proof fn law_steps_stay_numbered(v: EngineState, now: i64, step_id: String, interval_id: String)
    requires
        steps_numbered(v.steps),
        v.steps.len() < usize::MAX,
    ensures
        steps_numbered(v.continued(now, step_id, interval_id).steps),
        steps_numbered(v.paused(now).steps),
        steps_numbered(v.resumed(now, interval_id).steps),
        steps_numbered(v.after_completion_check(now).steps),
        steps_numbered(v.reset_active(now).steps),
{
    let c = v.close_current_interval(now);
    assert(steps_numbered(c.steps)) by {
        assert forall|i: int| 0 <= i < c.steps.len() implies (#[trigger] c.steps[i]).index == i as u32 by {
            assert(c.steps[i].index == v.steps[i].index);
        }
    }
    let p = v.paused(now);
    assert(steps_numbered(p.steps)) by {
        assert forall|i: int| 0 <= i < p.steps.len() implies (#[trigger] p.steps[i]).index == i as u32 by {
            assert(p.steps[i].index == c.steps[i].index);
        }
    }
    let r = v.resumed(now, interval_id);
    assert(steps_numbered(r.steps)) by {
        assert forall|i: int| 0 <= i < r.steps.len() implies (#[trigger] r.steps[i]).index == i as u32 by {
            assert(r.steps[i].index == v.steps[i].index);
        }
    }
    let d = v.after_completion_check(now);
    assert(steps_numbered(d.steps)) by {
        assert forall|i: int| 0 <= i < d.steps.len() implies (#[trigger] d.steps[i]).index == i as u32 by {
            if v.is_due(now) {
                assert(d.steps[i].index == c.steps[i].index);
            }
        }
    }
    let n = v.continued(now, step_id, interval_id);
    assert(steps_numbered(n.steps)) by {
        assert forall|i: int| 0 <= i < n.steps.len() implies (#[trigger] n.steps[i]).index == i as u32 by {
            if i < v.steps.len() {
                assert(n.steps[i] == v.steps[i]);
            }
        }
    }
}

} // verus!
