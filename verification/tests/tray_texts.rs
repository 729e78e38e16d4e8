use kairo::models::{StepKind, TimerStatus};
use kairo::snapshot::{TimerSnapshot, TimerSnapshotCtaKind, TimerSnapshotStep};
use kairo::tray::{
    can_reset, format_duration, next_step_label, primary_tray_action, step_label, toggle_window_text, tray_icon_update,
    tray_primary_action_text, tray_status_text, tray_tooltip_text, PrimaryTrayAction, TrayVisualState,
};
use kairo::notifications::{completion_body, completion_follow_up, completion_title, CompletionFollowUp};

fn snapshot_with(status: TimerStatus, kind: StepKind, remaining_ms: i64) -> TimerSnapshot {
    TimerSnapshot {
        status,
        current_step: Some(TimerSnapshotStep {
            id: "step".into(),
            kind,
            index: 0,
            planned_ms: 1_500_000,
            actual_ms: 1_500_000 - remaining_ms,
        }),
        remaining_ms,
        ..TimerSnapshot::idle(0)
    }
}

#[test]
fn durations_format_as_clock_text() {
    assert_eq!(format_duration(0), "00:00");
    assert_eq!(format_duration(-5_000), "00:00");
    assert_eq!(format_duration(999), "00:00");
    assert_eq!(format_duration(65_000), "01:05");
    assert_eq!(format_duration(1_500_000), "25:00");
    assert_eq!(format_duration(3_725_000), "1:02:05");
    assert_eq!(format_duration(36_000_000), "10:00:00");
}

#[test]
fn status_texts_follow_the_timer() {
    let running = snapshot_with(TimerStatus::Running, StepKind::Focus, 1_500_000);
    assert_eq!(tray_status_text(&running), "⏱ 25:00 · enfoque");
    assert_eq!(tray_tooltip_text(&running), "Kairo · 25:00 restantes");
    let break_running = snapshot_with(TimerStatus::Running, StepKind::ShortBreak, 61_000);
    assert_eq!(tray_status_text(&break_running), "⏱ 01:01 · descanso");
    assert_eq!(step_label(&break_running), "descanso");
    let paused = snapshot_with(TimerStatus::Paused, StepKind::Focus, 5_000);
    assert_eq!(tray_status_text(&paused), "⏸ 00:05 · pausado");
    let idle = TimerSnapshot::idle(0);
    assert_eq!(tray_status_text(&idle), "Kairo listo");
    assert_eq!(tray_tooltip_text(&idle), "Kairo");
    let mut completed = idle.clone();
    completed.status = TimerStatus::Completed;
    assert_eq!(tray_status_text(&completed), "✅ Ciclo completo");
    assert_eq!(tray_tooltip_text(&completed), "Kairo · ciclo completo");
}

#[test]
fn awaiting_texts_name_the_next_step() {
    let mut waiting = snapshot_with(TimerStatus::AwaitingContinue, StepKind::Focus, 0);
    assert_eq!(next_step_label(&waiting), "Listo para reiniciar");
    waiting.next_step = Some(TimerSnapshotStep {
        id: String::new(),
        kind: StepKind::ShortBreak,
        index: 1,
        planned_ms: 300_000,
        actual_ms: 0,
    });
    waiting.cta.kind = TimerSnapshotCtaKind::StartBreak;
    assert_eq!(tray_status_text(&waiting), "Sigue: descanso");
    assert_eq!(tray_tooltip_text(&waiting), "Kairo · Sigue: descanso");
    assert_eq!(tray_primary_action_text(&waiting), "▶ Iniciar descanso");
    waiting.cta.kind = TimerSnapshotCtaKind::StartFocus;
    assert_eq!(tray_primary_action_text(&waiting), "▶ Iniciar foco");
    waiting.cta.kind = TimerSnapshotCtaKind::Restart;
    assert_eq!(tray_primary_action_text(&waiting), "▶ Continuar");
}

#[test]
fn primary_entry_and_reset_follow_status() {
    let idle = TimerSnapshot::idle(0);
    assert_eq!(tray_primary_action_text(&idle), "▶ Iniciar 25/5");
    assert!(!can_reset(&idle));
    assert_eq!(TrayVisualState::from_snapshot(&idle), TrayVisualState::Default);
    let running = snapshot_with(TimerStatus::Running, StepKind::Focus, 1_000);
    assert_eq!(tray_primary_action_text(&running), "⏸ Pausar");
    assert!(can_reset(&running));
    assert_eq!(TrayVisualState::from_snapshot(&running), TrayVisualState::Active);
    let paused = snapshot_with(TimerStatus::Paused, StepKind::Focus, 1_000);
    assert_eq!(tray_primary_action_text(&paused), "▶ Reanudar");
    assert_eq!(
        primary_tray_action(TimerStatus::Idle),
        PrimaryTrayAction::StartCycle { focus_ms: 1_500_000, break_ms: 300_000, total_focus_target_ms: 3_000_000 }
    );
    assert_eq!(primary_tray_action(TimerStatus::Running), PrimaryTrayAction::Pause);
    assert_eq!(primary_tray_action(TimerStatus::Paused), PrimaryTrayAction::Resume);
    assert_eq!(primary_tray_action(TimerStatus::AwaitingContinue), PrimaryTrayAction::Continue);
}

#[test]
fn toggle_entries_say_what_they_do() {
    assert_eq!(toggle_window_text(true, "panel"), "Ocultar panel");
    assert_eq!(toggle_window_text(false, "timer flotante"), "Mostrar timer flotante");
}

#[test]
fn completion_notifications_name_step_and_next_action() {
    let mut snapshot = snapshot_with(TimerStatus::AwaitingContinue, StepKind::Focus, 0);
    snapshot.cta.kind = TimerSnapshotCtaKind::StartBreak;
    assert_eq!(completion_title(&snapshot), "Enfoque completado");
    assert_eq!(completion_body(&snapshot), "Cuando estés listo, iniciá tu descanso.");
    let mut after_break = snapshot_with(TimerStatus::AwaitingContinue, StepKind::ShortBreak, 0);
    after_break.cta.kind = TimerSnapshotCtaKind::StartFocus;
    assert_eq!(completion_title(&after_break), "Descanso completado");
    assert_eq!(completion_body(&after_break), "Cuando quieras, iniciá el próximo enfoque.");
    let mut done = TimerSnapshot::idle(0);
    done.cta.kind = TimerSnapshotCtaKind::Restart;
    assert_eq!(completion_title(&done), "Etapa completada");
    assert_eq!(completion_body(&done), "Ciclo de enfoque completado.");
    done.cta.kind = TimerSnapshotCtaKind::Pause;
    assert_eq!(completion_body(&done), "Etapa del temporizador completada.");
}

#[test]
fn tray_icon_changes_only_when_the_state_changes() {
    let idle = TimerSnapshot::idle(0);
    let running = snapshot_with(TimerStatus::Running, StepKind::Focus, 1_000);
    assert_eq!(tray_icon_update(TrayVisualState::Default, &idle), (false, TrayVisualState::Default));
    assert_eq!(tray_icon_update(TrayVisualState::Default, &running), (true, TrayVisualState::Active));
    assert_eq!(tray_icon_update(TrayVisualState::Active, &running), (false, TrayVisualState::Active));
    assert_eq!(tray_icon_update(TrayVisualState::Active, &idle), (true, TrayVisualState::Default));
}

#[test]
fn completion_follow_up_by_status() {
    assert_eq!(completion_follow_up(TimerStatus::AwaitingContinue), CompletionFollowUp::AwaitContinue);
    assert_eq!(completion_follow_up(TimerStatus::Completed), CompletionFollowUp::CycleCompleted);
    assert_eq!(completion_follow_up(TimerStatus::Running), CompletionFollowUp::Nothing);
}
