use kairo::engine::ActiveTimerState;
use kairo::kde::{is_kde_session, is_kde_wayland_session, is_wayland_session, package_action, text_contains};
use kairo::lifecycle::{active_step_records, cancellation_plan, closed_interval, completion_stop_reason};
use kairo::models::{Session, SessionStep, StepKind, StepStatus, TimeInterval, TimerMode, TimerStatus};
use kairo::persistence::{
    interval_close_row, interval_kind_value, interval_open_row, session_row, session_status_value, step_kind_value,
    step_row, today_window, StepPersistenceStatus, StopReason,
};

fn session(status: TimerStatus) -> Session {
    Session {
        id: "session-2".into(),
        mode: TimerMode::Free,
        target_focus_ms: 2_000,
        status,
        started_at_ms: 100,
        ended_at_ms: None,
    }
}

fn step(id: &str, kind: StepKind, status: StepStatus, planned_ms: i64, actual_ms: i64) -> SessionStep {
    SessionStep {
        id: id.into(),
        session_id: "session-2".into(),
        index: 0,
        kind,
        status,
        planned_ms,
        actual_ms,
    }
}

#[test]
fn maps_short_break_steps_break_intervals_and_step_switch_reason() {
    let session = session(TimerStatus::AwaitingContinue);
    let step = SessionStep {
        id: "step-break".into(),
        session_id: session.id.clone(),
        index: 1,
        kind: StepKind::ShortBreak,
        status: StepStatus::Completed,
        planned_ms: 500,
        actual_ms: 500,
    };
    let mut interval = TimeInterval {
        id: "interval-break".into(),
        session_id: session.id.clone(),
        step_id: step.id.clone(),
        kind: StepKind::ShortBreak,
        started_at_ms: 200,
        ended_at_ms: None,
        elapsed_ms: 0,
    };

    let step_row = step_row(&step, StepPersistenceStatus::Completed, Some(200), Some(700), 700);
    let open_row = interval_open_row(&interval);
    assert!(interval_close_row(&interval, StopReason::StepSwitch).is_none());
    interval.ended_at_ms = Some(700);
    interval.elapsed_ms = 500;
    let close_row = interval_close_row(&interval, StopReason::StepSwitch).unwrap();

    assert_eq!(step_row.kind, "short_break");
    assert_eq!(open_row.kind, "break");
    assert_eq!(close_row.stop_reason, "step_switch");
    assert_eq!(step_row.status, "completed");
    assert_eq!(close_row.elapsed_ms, 500);
}

#[test]
fn status_and_reason_texts() {
    assert_eq!(session_status_value(&TimerStatus::AwaitingContinue), "paused");
    assert_eq!(session_status_value(&TimerStatus::Idle), "cancelled");
    assert_eq!(step_kind_value(&StepKind::Focus), "focus");
    assert_eq!(interval_kind_value(&StepKind::Focus), "focus");
    assert_eq!(StopReason::AppShutdown.as_str(), "app_shutdown");
    assert_eq!(StopReason::Quit.as_str(), "quit");
    assert_eq!(StepPersistenceStatus::Pending.as_str(), "pending");
    assert_eq!(completion_stop_reason(TimerStatus::Completed), StopReason::Complete);
    assert_eq!(completion_stop_reason(TimerStatus::AwaitingContinue), StopReason::StepSwitch);
}

#[test]
fn session_rows_are_updated_at_their_end() {
    let mut s = session(TimerStatus::Running);
    assert_eq!(session_row(&s).updated_at_ms, 100);
    assert_eq!(session_row(&s).mode, "free");
    s.ended_at_ms = Some(900);
    let row = session_row(&s);
    assert_eq!(row.updated_at_ms, 900);
    assert_eq!(row.status, "running");
}

#[test]
fn today_window_is_the_utc_day() {
    assert_eq!(today_window(86_402_000), (86_400_000, 172_800_000));
    assert_eq!(today_window(86_400_000), (86_400_000, 172_800_000));
    assert_eq!(today_window(-1), (-86_400_000, 0));
}

#[test]
fn closed_interval_counts_time_since_start() {
    let interval = TimeInterval {
        id: "i".into(),
        session_id: "s".into(),
        step_id: "a".into(),
        kind: StepKind::Focus,
        started_at_ms: 1_000,
        ended_at_ms: None,
        elapsed_ms: 0,
    };
    let closed = closed_interval(Some(interval.clone()), 1_700).unwrap();
    assert_eq!(closed.ended_at_ms, Some(1_700));
    assert_eq!(closed.elapsed_ms, 700);
    let backwards = closed_interval(Some(interval), 500).unwrap();
    assert_eq!(backwards.elapsed_ms, 0);
    assert!(closed_interval(None, 10).is_none());
}

#[test]
fn active_records_give_the_current_step_its_status() {
    let s = session(TimerStatus::Running);
    let steps = vec![
        step("a", StepKind::Focus, StepStatus::Completed, 1_000, 1_000),
        step("b", StepKind::ShortBreak, StepStatus::Running, 500, 100),
    ];
    let current = Some(steps[1].clone());
    let records = active_step_records(&s, &steps, &current, StepPersistenceStatus::Paused, 1_234);
    assert_eq!(records.len(), 2);
    assert_eq!(records[0].status, StepPersistenceStatus::Completed);
    assert_eq!(records[0].ended_at_ms, Some(1_234));
    assert_eq!(records[0].started_at_ms, Some(100));
    assert_eq!(records[1].status, StepPersistenceStatus::Paused);
    assert_eq!(records[1].ended_at_ms, None);
    let pending = vec![step("c", StepKind::Focus, StepStatus::Pending, 1_000, 0)];
    let records = active_step_records(&s, &pending, &None, StepPersistenceStatus::Running, 5);
    assert_eq!(records[0].status, StepPersistenceStatus::Pending);
    assert_eq!(records[0].started_at_ms, None);
}

#[test]
fn cancelling_adds_running_time_and_cancels_unfinished_steps() {
    let previous = ActiveTimerState {
        session: session(TimerStatus::Running),
        steps: vec![
            step("a", StepKind::Focus, StepStatus::Completed, 1_000, 1_000),
            step("b", StepKind::ShortBreak, StepStatus::Running, 500, 100),
        ],
        current_interval: Some(TimeInterval {
            id: "i".into(),
            session_id: "session-2".into(),
            step_id: "b".into(),
            kind: StepKind::ShortBreak,
            started_at_ms: 1_000,
            ended_at_ms: None,
            elapsed_ms: 0,
        }),
    };
    let plan = cancellation_plan(previous, 1_300);
    assert_eq!(plan.closed_interval.as_ref().unwrap().elapsed_ms, 300);
    assert_eq!(plan.session.as_ref().unwrap().ended_at_ms, Some(1_300));
    assert_eq!(plan.steps.len(), 2);
    assert_eq!(plan.steps[0].status, StepPersistenceStatus::Completed);
    assert_eq!(plan.steps[1].status, StepPersistenceStatus::Cancelled);
    assert_eq!(plan.steps[1].step.actual_ms, 400);
    assert_eq!(plan.steps[1].ended_at_ms, Some(1_300));
}

#[test]
fn cancelling_never_adds_beyond_the_plan_and_leaves_completed_sessions() {
    let previous = ActiveTimerState {
        session: session(TimerStatus::Completed),
        steps: vec![step("b", StepKind::Focus, StepStatus::Completed, 500, 450)],
        current_interval: Some(TimeInterval {
            id: "i".into(),
            session_id: "session-2".into(),
            step_id: "b".into(),
            kind: StepKind::Focus,
            started_at_ms: 0,
            ended_at_ms: None,
            elapsed_ms: 0,
        }),
    };
    let plan = cancellation_plan(previous, 10_000);
    assert!(plan.session.is_none());
    assert!(plan.steps.is_empty());
    assert_eq!(plan.closed_interval.unwrap().elapsed_ms, 10_000);
}

#[test]
fn kde_detection() {
    assert!(text_contains("kde:plasma", "plasma"));
    assert!(!text_contains("gnome", "kde"));
    assert!(text_contains("", ""));
    assert!(is_kde_session("kde", ""));
    assert!(is_kde_session("", "plasmawayland"));
    assert!(!is_kde_session("gnome", "ubuntu"));
    assert!(is_wayland_session("wayland", false));
    assert!(is_wayland_session("x11", true));
    assert!(!is_wayland_session("x11", false));
    assert!(is_kde_wayland_session("wayland", false, "kde", ""));
    assert!(!is_kde_wayland_session("x11", false, "kde", ""));
    assert_eq!(package_action("kairo-keep-above\nother"), "--upgrade");
    assert_eq!(package_action("other"), "--install");
}
