use kairo::models::{StepKind, TimerStatus};
use kairo::snapshot::{TimerSnapshot, TimerSnapshotStep};
use kairo::windows::{is_active_timer_status, is_focus_step, mini_timer_action_for_snapshot, MiniTimerAction};

fn running_snapshot(kind: StepKind, remaining_ms: i64) -> TimerSnapshot {
    TimerSnapshot {
        status: TimerStatus::Running,
        current_step: Some(TimerSnapshotStep {
            id: "step-1".into(),
            kind,
            index: 0,
            planned_ms: 60_000,
            actual_ms: 60_000 - remaining_ms,
        }),
        remaining_ms,
        ..TimerSnapshot::idle(1_000)
    }
}

#[test]
fn mini_timer_shows_only_for_hidden_focus_with_more_than_five_seconds() {
    let snapshot = running_snapshot(StepKind::Focus, 6_000);

    assert_eq!(
        mini_timer_action_for_snapshot(&snapshot, true),
        MiniTimerAction::ShowMini
    );
}

#[test]
fn mini_timer_does_not_show_for_break_steps() {
    let snapshot = running_snapshot(StepKind::ShortBreak, 60_000);

    assert_eq!(
        mini_timer_action_for_snapshot(&snapshot, true),
        MiniTimerAction::HideMini
    );
}

#[test]
fn final_focus_seconds_restore_floating_timer() {
    let snapshot = running_snapshot(StepKind::Focus, 5_000);

    assert_eq!(
        mini_timer_action_for_snapshot(&snapshot, true),
        MiniTimerAction::ShowFloatingTimer
    );
}

#[test]
fn mini_timer_hides_when_primary_windows_are_visible() {
    let snapshot = running_snapshot(StepKind::Focus, 60_000);

    assert_eq!(
        mini_timer_action_for_snapshot(&snapshot, false),
        MiniTimerAction::HideMini
    );
}

#[test]
fn paused_focus_keeps_mini_timer_but_never_restores_floating_timer() {
    let mut snapshot = running_snapshot(StepKind::Focus, 4_000);
    snapshot.status = TimerStatus::Paused;
    assert_eq!(mini_timer_action_for_snapshot(&snapshot, true), MiniTimerAction::HideMini);
    snapshot.remaining_ms = 6_000;
    assert_eq!(mini_timer_action_for_snapshot(&snapshot, true), MiniTimerAction::ShowMini);
}

#[test]
fn idle_and_completed_hide_mini_timer() {
    let mut snapshot = running_snapshot(StepKind::Focus, 30_000);
    snapshot.status = TimerStatus::Completed;
    assert_eq!(mini_timer_action_for_snapshot(&snapshot, true), MiniTimerAction::HideMini);
    let idle = TimerSnapshot::idle(0);
    assert_eq!(mini_timer_action_for_snapshot(&idle, true), MiniTimerAction::HideMini);
    assert!(!is_focus_step(&idle));
    assert!(is_active_timer_status(&TimerStatus::AwaitingContinue));
    assert!(!is_active_timer_status(&TimerStatus::Idle));
}
