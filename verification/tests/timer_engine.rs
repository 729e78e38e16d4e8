use std::sync::{
    atomic::{AtomicI64, Ordering},
    Arc,
};

use kairo::clock::{clock_ms_from_millis, Clock};
use kairo::engine::TimerEngine;
use kairo::models::{StepKind, StepStatus, TimerMode, TimerStatus};
use kairo::snapshot::TimerSnapshotCtaKind;

#[derive(Clone)]
struct ManualClock {
    now_ms: Arc<AtomicI64>,
}

impl ManualClock {
    fn new(now_ms: i64) -> Self {
        Self {
            now_ms: Arc::new(AtomicI64::new(now_ms)),
        }
    }

    fn set(&self, now_ms: i64) {
        self.now_ms.store(now_ms, Ordering::SeqCst);
    }
}

impl Clock for ManualClock {
    fn now_ms(&self) -> i64 {
        self.now_ms.load(Ordering::SeqCst)
    }
}

fn engine_at(now_ms: i64) -> (TimerEngine<ManualClock>, ManualClock) {
    let clock = ManualClock::new(now_ms);
    (TimerEngine::new(clock.clone()), clock)
}

#[test]
fn starting_free_session_creates_running_snapshot() {
    let (mut engine, _clock) = engine_at(1_000);

    let snapshot = engine.start_free_session(25_000);

    assert_eq!(snapshot.status, TimerStatus::Running);
    assert_eq!(snapshot.mode, Some(TimerMode::Free));
    assert_eq!(snapshot.remaining_ms, 25_000);
    assert_eq!(snapshot.total_focus_target_ms, 25_000);
    assert!(snapshot.session_id.is_some());
    assert!(snapshot.current_interval_started_at_ms.is_some());
}

#[test]
fn focus_step_completion_waits_for_manual_break_transition() {
    let (mut engine, clock) = engine_at(1_000);
    engine.start_focus_break_cycle(2_000, 1_000, 4_000);

    clock.set(3_000);
    assert!(engine.complete_if_due());
    let snapshot = engine.snapshot();

    assert_eq!(snapshot.status, TimerStatus::AwaitingContinue);
    assert_eq!(snapshot.total_focus_elapsed_ms, 2_000);
    assert_eq!(snapshot.current_interval_started_at_ms, None);
    assert_eq!(snapshot.next_step.unwrap().kind, StepKind::ShortBreak);
    assert_eq!(snapshot.cta.kind, TimerSnapshotCtaKind::StartBreak);
}

#[test]
fn continue_cycle_opens_break_interval_after_manual_cta() {
    let (mut engine, clock) = engine_at(1_000);
    engine.start_focus_break_cycle(2_000, 1_000, 4_000);
    clock.set(3_000);
    engine.complete_if_due();

    clock.set(5_000);
    let snapshot = engine.continue_cycle();

    assert_eq!(snapshot.status, TimerStatus::Running);
    assert_eq!(snapshot.current_step.unwrap().kind, StepKind::ShortBreak);
    assert_eq!(snapshot.current_interval_started_at_ms, Some(5_000));
    assert_eq!(snapshot.total_focus_elapsed_ms, 2_000);
}

#[test]
fn break_running_time_does_not_count_toward_focus_total() {
    let (mut engine, clock) = engine_at(1_000);
    engine.start_focus_break_cycle(2_000, 1_000, 4_000);
    clock.set(3_000);
    engine.complete_if_due();
    clock.set(5_000);
    engine.continue_cycle();

    clock.set(5_500);
    let snapshot = engine.snapshot();

    assert_eq!(snapshot.current_step.unwrap().kind, StepKind::ShortBreak);
    assert_eq!(snapshot.active_kind_elapsed_ms, 500);
    assert_eq!(snapshot.total_focus_elapsed_ms, 2_000);
}

#[test]
fn break_completion_waits_for_manual_focus_transition() {
    let (mut engine, clock) = engine_at(1_000);
    engine.start_focus_break_cycle(2_000, 1_000, 4_000);
    clock.set(3_000);
    engine.complete_if_due();
    clock.set(5_000);
    engine.continue_cycle();

    clock.set(6_000);
    assert!(engine.complete_if_due());
    let snapshot = engine.snapshot();

    assert_eq!(snapshot.status, TimerStatus::AwaitingContinue);
    assert_eq!(snapshot.next_step.unwrap().kind, StepKind::Focus);
    assert_eq!(snapshot.cta.kind, TimerSnapshotCtaKind::StartFocus);
    assert_eq!(snapshot.total_focus_elapsed_ms, 2_000);
}

#[test]
fn total_focus_completion_marks_session_completed_without_break_cta() {
    let (mut engine, clock) = engine_at(1_000);
    engine.start_focus_break_cycle(2_000, 1_000, 2_000);

    clock.set(3_000);
    assert!(engine.complete_if_due());
    let snapshot = engine.snapshot();

    assert_eq!(snapshot.status, TimerStatus::Completed);
    assert!(snapshot.next_step.is_none());
    assert_eq!(snapshot.remaining_ms, 0);
    assert_eq!(snapshot.total_focus_elapsed_ms, 2_000);
}

#[test]
fn paused_time_does_not_count_toward_focus_time() {
    let (mut engine, clock) = engine_at(1_000);
    engine.start_focus_break_cycle(10_000, 5_000, 10_000);

    clock.set(2_000);
    engine.pause();
    clock.set(7_000);
    assert_eq!(engine.snapshot().total_focus_elapsed_ms, 1_000);

    engine.resume();
    clock.set(9_000);
    let snapshot = engine.snapshot();

    assert_eq!(snapshot.total_focus_elapsed_ms, 3_000);
    assert_eq!(snapshot.remaining_ms, 7_000);
}

#[test]
fn reset_during_transition_clears_active_state() {
    let (mut engine, clock) = engine_at(1_000);
    engine.start_focus_break_cycle(2_000, 1_000, 4_000);
    clock.set(3_000);
    engine.complete_if_due();

    let snapshot = engine.reset();

    assert_eq!(snapshot.status, TimerStatus::Idle);
    assert!(engine.active_state().is_none());
    assert!(engine.current_interval_id().is_none());
}

#[test]
fn idle_engine_ignores_pause_resume_and_continue() {
    let (mut engine, _clock) = engine_at(1_000);

    assert_eq!(engine.pause().status, TimerStatus::Idle);
    assert_eq!(engine.resume().status, TimerStatus::Idle);
    assert_eq!(engine.continue_cycle().status, TimerStatus::Idle);
    assert!(!engine.complete_if_due());
    let snapshot = engine.snapshot();
    assert_eq!(snapshot.cta.kind, TimerSnapshotCtaKind::StartCycle);
    assert_eq!(snapshot.cta.label, "Start focus");
    assert!(engine.current_session().is_none());
    assert!(engine.current_steps().is_empty());
}

#[test]
fn running_step_is_not_due_before_its_plan() {
    let (mut engine, clock) = engine_at(0);
    engine.start_focus_break_cycle(2_000, 1_000, 4_000);
    clock.set(1_999);
    assert!(!engine.complete_if_due());
    let snapshot = engine.snapshot();
    assert_eq!(snapshot.status, TimerStatus::Running);
    assert_eq!(snapshot.remaining_ms, 1);
    assert_eq!(snapshot.cta.kind, TimerSnapshotCtaKind::Pause);
    assert_eq!(snapshot.cta.label, "Pause");
}

#[test]
fn pause_closes_interval_and_resume_opens_a_new_one() {
    let (mut engine, clock) = engine_at(1_000);
    engine.start_focus_break_cycle(10_000, 5_000, 10_000);
    let first_interval = engine.current_interval_id().unwrap();

    clock.set(4_000);
    let paused = engine.pause();
    assert_eq!(paused.status, TimerStatus::Paused);
    assert_eq!(paused.cta.kind, TimerSnapshotCtaKind::Resume);
    assert_eq!(paused.current_interval_started_at_ms, None);
    let closed = engine.interval(&first_interval).unwrap();
    assert_eq!(closed.ended_at_ms, Some(4_000));
    assert_eq!(closed.elapsed_ms, 3_000);
    assert_eq!(engine.current_step().unwrap().actual_ms, 3_000);
    assert_eq!(engine.current_step().unwrap().status, StepStatus::Paused);

    clock.set(6_000);
    let resumed = engine.resume();
    assert_eq!(resumed.status, TimerStatus::Running);
    assert_eq!(resumed.current_interval_started_at_ms, Some(6_000));
    let second_interval = engine.current_interval_id().unwrap();
    assert_ne!(first_interval, second_interval);
    assert_eq!(second_interval.len(), 36);
    let active = engine.active_state().unwrap();
    assert_eq!(active.steps.len(), 1);
    assert_eq!(active.current_interval.unwrap().started_at_ms, 6_000);
}

#[test]
fn durations_below_one_millisecond_are_raised() {
    let (mut engine, _clock) = engine_at(1_000);
    let snapshot = engine.start_focus_break_cycle(0, -5, -1);
    let cycle = snapshot.cycle.unwrap();
    assert_eq!(cycle.focus_ms, 1);
    assert_eq!(cycle.break_ms, 1);
    assert_eq!(cycle.total_focus_target_ms, 1);
    assert_eq!(snapshot.remaining_ms, 1);
}

#[test]
fn starting_again_replaces_the_session() {
    let (mut engine, clock) = engine_at(1_000);
    let first = engine.start_free_session(5_000);
    clock.set(2_000);
    let second = engine.start_free_session(8_000);
    assert_ne!(first.session_id, second.session_id);
    assert_eq!(second.remaining_ms, 8_000);
    assert_eq!(second.total_focus_elapsed_ms, 0);
    assert_eq!(engine.current_steps().len(), 1);
}

#[test]
fn exact_transitions_with_given_ids() {
    let (mut engine, _clock) = engine_at(0);
    let snapshot = engine.start_focus_break_cycle_at(
        1_000,
        500,
        2_000,
        100,
        "s".to_string(),
        "f1".to_string(),
        "i1".to_string(),
    );
    assert_eq!(snapshot.session_id, Some("s".to_string()));
    assert_eq!(snapshot.current_step.as_ref().unwrap().id, "f1");
    assert!(engine.complete_if_due_at(1_100));
    let waiting = engine.snapshot_at(1_200);
    assert_eq!(waiting.status, TimerStatus::AwaitingContinue);
    let next = waiting.next_step.unwrap();
    assert_eq!(next.id, "");
    assert_eq!(next.index, 1);
    assert_eq!(next.planned_ms, 500);
    let running_break = engine.continue_cycle_at(1_300, "b1".to_string(), "i2".to_string());
    assert_eq!(running_break.current_step.unwrap().id, "b1");
    assert_eq!(engine.current_interval_id(), Some("i2".to_string()));
    assert!(engine.complete_if_due_at(1_800));
    let cont = engine.continue_cycle_at(1_900, "f2".to_string(), "i3".to_string());
    assert_eq!(cont.current_step.unwrap().kind, StepKind::Focus);
    assert!(engine.complete_if_due_at(2_900));
    let done = engine.snapshot_at(3_000);
    assert_eq!(done.status, TimerStatus::Completed);
    assert_eq!(done.cta.kind, TimerSnapshotCtaKind::Restart);
    assert_eq!(done.cta.label, "Restart");
    assert_eq!(done.total_focus_elapsed_ms, 2_000);
    let cycle = done.cycle.unwrap();
    assert_eq!(cycle.completed_steps, 3);
    assert_eq!(cycle.completed_focus_ms, 2_000);
    assert_eq!(engine.current_session().unwrap().ended_at_ms, Some(2_900));
}

#[test]
fn clock_readings_from_epoch_millis() {
    assert_eq!(clock_ms_from_millis(Some(1_700_000_000_123)), 1_700_000_000_123);
    assert_eq!(clock_ms_from_millis(None), 0);
    assert_eq!(clock_ms_from_millis(Some(1u128 << 64)), 0);
    assert_eq!(clock_ms_from_millis(Some(u64::MAX as u128)), -1);
}

#[test]
fn pause_and_resume_at_one_instant_keep_the_shown_time() {
    let (mut engine, clock) = engine_at(1_000);
    engine.start_focus_break_cycle(10_000, 5_000, 10_000);
    clock.set(4_000);
    let before = engine.snapshot();
    engine.pause();
    let after = engine.resume();
    assert_eq!(after.status, TimerStatus::Running);
    assert_eq!(after.remaining_ms, before.remaining_ms);
    assert_eq!(after.total_focus_elapsed_ms, before.total_focus_elapsed_ms);
    assert_eq!(after.active_kind_elapsed_ms, before.active_kind_elapsed_ms);
    assert_eq!(after.current_step.unwrap().id, before.current_step.unwrap().id);
    assert_eq!(after.current_interval_started_at_ms, Some(4_000));
    assert_eq!(after.remaining_ms + after.active_kind_elapsed_ms, 10_000);
    let active = engine.active_state().unwrap();
    let interval = active.current_interval.unwrap();
    assert_eq!(interval.kind, StepKind::Focus);
    assert_eq!(interval.elapsed_ms, 0);
    assert_eq!(interval.ended_at_ms, None);
}
