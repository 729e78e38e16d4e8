use vstd::prelude::*;
use vstd::string::*;

use crate::models::{StepKind, TimerStatus};
use crate::snapshot::{TimerSnapshot, TimerSnapshotCtaKind};
use crate::text::{decimal, decimal2, push_decimal, push_decimal2};

verus! {

/// Which icon the tray shows.
#[derive(Clone, Copy, Debug, PartialEq, Eq, Structural)]
pub enum TrayVisualState {
    Default,
    Active,
}

/// What the primary tray entry does for the current status.
#[derive(Clone, Copy, Debug, PartialEq, Eq, Structural)]
pub enum PrimaryTrayAction {
    StartCycle { focus_ms: i64, break_ms: i64, total_focus_target_ms: i64 },
    Pause,
    Resume,
    Continue,
}

/// Whole seconds of a duration, never negative.
pub open spec fn whole_seconds(duration_ms: i64) -> nat {
    if duration_ms <= 0 { 0 } else { (duration_ms / 1000) as nat }
}

/// A duration as `m:ss` style text: `hh:mm:ss` from one hour on, `mm:ss` below.
pub open spec fn duration_text(duration_ms: i64) -> Seq<char> {
    let total = whole_seconds(duration_ms);
    let hours = total / 3600;
    let minutes = (total % 3600) / 60;
    let seconds = total % 60;
    if hours > 0 {
        decimal(hours) + ":"@ + decimal2(minutes) + ":"@ + decimal2(seconds)
    } else {
        decimal2(minutes) + ":"@ + decimal2(seconds)
    }
}

pub open spec fn step_label_text(snapshot: TimerSnapshot) -> Seq<char> {
    if snapshot.current_step matches Some(step) && step.kind == StepKind::ShortBreak {
        "descanso"@
    } else {
        "enfoque"@
    }
}

pub open spec fn next_step_label_text(snapshot: TimerSnapshot) -> Seq<char> {
    match snapshot.next_step {
        Some(step) => if step.kind == StepKind::ShortBreak { "Sigue: descanso"@ } else { "Sigue: enfoque"@ },
        None => "Listo para reiniciar"@,
    }
}

pub open spec fn status_text(snapshot: TimerSnapshot) -> Seq<char> {
    match snapshot.status {
        TimerStatus::Idle => "Kairo listo"@,
        TimerStatus::Completed => "✅ Ciclo completo"@,
        TimerStatus::Running => "⏱ "@ + duration_text(snapshot.remaining_ms) + " · "@ + step_label_text(snapshot),
        TimerStatus::Paused => "⏸ "@ + duration_text(snapshot.remaining_ms) + " · pausado"@,
        TimerStatus::AwaitingContinue => next_step_label_text(snapshot),
    }
}

pub open spec fn tooltip_text(snapshot: TimerSnapshot) -> Seq<char> {
    match snapshot.status {
        TimerStatus::Idle => "Kairo"@,
        TimerStatus::Completed => "Kairo · ciclo completo"@,
        TimerStatus::Running | TimerStatus::Paused => "Kairo · "@ + duration_text(snapshot.remaining_ms) + " restantes"@,
        TimerStatus::AwaitingContinue => "Kairo · "@ + next_step_label_text(snapshot),
    }
}

pub open spec fn primary_action_text(snapshot: TimerSnapshot) -> Seq<char> {
    match snapshot.status {
        TimerStatus::Idle => "▶ Iniciar 25/5"@,
        TimerStatus::Running => "⏸ Pausar"@,
        TimerStatus::Paused => "▶ Reanudar"@,
        TimerStatus::AwaitingContinue => match snapshot.cta.kind {
            TimerSnapshotCtaKind::StartBreak => "▶ Iniciar descanso"@,
            TimerSnapshotCtaKind::StartFocus => "▶ Iniciar foco"@,
            _ => "▶ Continuar"@,
        },
        TimerStatus::Completed => "▶ Reiniciar 25/5"@,
    }
}

/// The icon for a snapshot: active while a session is under way.
pub open spec fn visual_state_of(snapshot: TimerSnapshot) -> TrayVisualState {
    if snapshot.status == TimerStatus::Running || snapshot.status == TimerStatus::Paused
        || snapshot.status == TimerStatus::AwaitingContinue {
        TrayVisualState::Active
    } else {
        TrayVisualState::Default
    }
}

impl TrayVisualState {
    pub fn from_snapshot(snapshot: &TimerSnapshot) -> (r: Self)
        ensures
            r == visual_state_of(*snapshot),
    {
        match snapshot.status {
            TimerStatus::Running | TimerStatus::Paused | TimerStatus::AwaitingContinue => TrayVisualState::Active,
            _ => TrayVisualState::Default,
        }
    }
}

/// Whether the tray icon has to change from `current` for a snapshot, and
/// the icon state to remember: it changes only when the snapshot calls for
/// another icon than the one shown.
pub fn tray_icon_update(current: TrayVisualState, snapshot: &TimerSnapshot) -> (r: (bool, TrayVisualState))
    ensures
        r.0 == (current != visual_state_of(*snapshot)),
        r.1 == visual_state_of(*snapshot),
{
    let next = TrayVisualState::from_snapshot(snapshot);
    if current == next {
        (false, current)
    } else {
        (true, next)
    }
}

/// A duration as clock text.
pub fn format_duration(duration_ms: i64) -> (r: String)
    ensures
        r@ == duration_text(duration_ms),
{
    let total_seconds: u64 = if duration_ms <= 0 { 0 } else { (duration_ms / 1000) as u64 };
    let hours = total_seconds / 3600;
    let minutes = (total_seconds % 3600) / 60;
    let seconds = total_seconds % 60;
    let mut text = String::new();
    if hours > 0 {
        push_decimal(&mut text, hours);
        text.append(":");
    }
    push_decimal2(&mut text, minutes);
    text.append(":");
    push_decimal2(&mut text, seconds);
    proof {
        assert(text@ =~= duration_text(duration_ms));
    }
    text
}

pub fn step_label(snapshot: &TimerSnapshot) -> (r: &'static str)
    ensures
        r@ == step_label_text(*snapshot),
{
    match &snapshot.current_step {
        Some(step) => match step.kind {
            StepKind::ShortBreak => "descanso",
            _ => "enfoque",
        },
        None => "enfoque",
    }
}

pub fn next_step_label(snapshot: &TimerSnapshot) -> (r: String)
    ensures
        r@ == next_step_label_text(*snapshot),
{
    match &snapshot.next_step {
        Some(step) => match step.kind {
            StepKind::ShortBreak => String::from_str("Sigue: descanso"),
            StepKind::Focus => String::from_str("Sigue: enfoque"),
        },
        None => String::from_str("Listo para reiniciar"),
    }
}

/// The status line of the tray menu.
pub fn tray_status_text(snapshot: &TimerSnapshot) -> (r: String)
    ensures
        r@ == status_text(*snapshot),
{
    match snapshot.status {
        TimerStatus::Idle => String::from_str("Kairo listo"),
        TimerStatus::Completed => String::from_str("✅ Ciclo completo"),
        TimerStatus::Running => {
            let mut text = String::from_str("⏱ ");
            text.append(format_duration(snapshot.remaining_ms).as_str());
            text.append(" · ");
            text.append(step_label(snapshot));
            text
        },
        TimerStatus::Paused => {
            let mut text = String::from_str("⏸ ");
            text.append(format_duration(snapshot.remaining_ms).as_str());
            text.append(" · pausado");
            text
        },
        TimerStatus::AwaitingContinue => next_step_label(snapshot),
    }
}

/// The tooltip of the tray icon.
pub fn tray_tooltip_text(snapshot: &TimerSnapshot) -> (r: String)
    ensures
        r@ == tooltip_text(*snapshot),
{
    match snapshot.status {
        TimerStatus::Idle => String::from_str("Kairo"),
        TimerStatus::Completed => String::from_str("Kairo · ciclo completo"),
        TimerStatus::Running | TimerStatus::Paused => {
            let mut text = String::from_str("Kairo · ");
            text.append(format_duration(snapshot.remaining_ms).as_str());
            text.append(" restantes");
            text
        },
        TimerStatus::AwaitingContinue => {
            let mut text = String::from_str("Kairo · ");
            text.append(next_step_label(snapshot).as_str());
            text
        },
    }
}

/// The label of the primary tray entry.
pub fn tray_primary_action_text(snapshot: &TimerSnapshot) -> (r: &'static str)
    ensures
        r@ == primary_action_text(*snapshot),
{
    match snapshot.status {
        TimerStatus::Idle => "▶ Iniciar 25/5",
        TimerStatus::Running => "⏸ Pausar",
        TimerStatus::Paused => "▶ Reanudar",
        TimerStatus::AwaitingContinue => match snapshot.cta.kind {
            TimerSnapshotCtaKind::StartBreak => "▶ Iniciar descanso",
            TimerSnapshotCtaKind::StartFocus => "▶ Iniciar foco",
            _ => "▶ Continuar",
        },
        TimerStatus::Completed => "▶ Reiniciar 25/5",
    }
}

/// Whether the tray offers to reset the session.
pub fn can_reset(snapshot: &TimerSnapshot) -> (r: bool)
    ensures
        r == !(snapshot.status == TimerStatus::Idle || snapshot.status == TimerStatus::Completed),
{
    !matches!(snapshot.status, TimerStatus::Idle | TimerStatus::Completed)
}

/// The label of an entry that shows or hides a window.
pub fn toggle_window_text(visible: bool, noun: &str) -> (r: String)
    ensures
        r@ == (if visible { "Ocultar "@ } else { "Mostrar "@ }) + noun@,
{
    let mut text = if visible { String::from_str("Ocultar ") } else { String::from_str("Mostrar ") };
    text.append(noun);
    text
}

/// The primary tray entry starts a 25/5 cycle with 50 minutes of focus when
/// nothing runs, and otherwise pauses, resumes or continues.
pub fn primary_tray_action(status: TimerStatus) -> (r: PrimaryTrayAction)
    ensures
        r == (match status {
            TimerStatus::Idle | TimerStatus::Completed => PrimaryTrayAction::StartCycle {
                focus_ms: 1_500_000,
                break_ms: 300_000,
                total_focus_target_ms: 3_000_000,
            },
            TimerStatus::Running => PrimaryTrayAction::Pause,
            TimerStatus::Paused => PrimaryTrayAction::Resume,
            TimerStatus::AwaitingContinue => PrimaryTrayAction::Continue,
        }),
{
    match status {
        TimerStatus::Idle | TimerStatus::Completed => PrimaryTrayAction::StartCycle {
            focus_ms: 25 * 60 * 1000,
            break_ms: 5 * 60 * 1000,
            total_focus_target_ms: 50 * 60 * 1000,
        },
        TimerStatus::Running => PrimaryTrayAction::Pause,
        TimerStatus::Paused => PrimaryTrayAction::Resume,
        TimerStatus::AwaitingContinue => PrimaryTrayAction::Continue,
    }
}

/// For a running or paused step, the status line and the tooltip both show
/// the time still remaining, as clock text.
pub proof fn law_texts_show_remaining_time(snapshot: TimerSnapshot)
    requires
        snapshot.status == TimerStatus::Running || snapshot.status == TimerStatus::Paused,
    ensures
        tooltip_text(snapshot) == "Kairo · "@ + duration_text(snapshot.remaining_ms) + " restantes"@,
        snapshot.status == TimerStatus::Running ==> status_text(snapshot) == "⏱ "@ + duration_text(snapshot.remaining_ms)
            + " · "@ + step_label_text(snapshot),
        snapshot.status == TimerStatus::Paused ==> status_text(snapshot) == "⏸ "@ + duration_text(snapshot.remaining_ms)
            + " · pausado"@,
{
}

} // verus!
