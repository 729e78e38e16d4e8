use vstd::prelude::*;

use crate::models::{StepKind, TimerStatus};
use crate::snapshot::TimerSnapshot;

verus! {

/// Below this many remaining milliseconds of focus the floating timer replaces
/// the mini timer.
pub const MINI_TIMER_FINAL_WARNING_MS: i64 = 5000;

/// What to do with the mini timer window.
#[derive(Clone, Copy, Debug, PartialEq, Eq, Structural)]
pub enum MiniTimerAction {
    ShowMini,
    ShowFloatingTimer,
    HideMini,
}

/// A session is under way: running, paused, or waiting for the next step.
pub open spec fn is_active_status(status: TimerStatus) -> bool {
    status == TimerStatus::Running || status == TimerStatus::Paused || status == TimerStatus::AwaitingContinue
}

/// The snapshot's current step is a focus step.
pub open spec fn shows_focus_step(snapshot: TimerSnapshot) -> bool {
    snapshot.current_step matches Some(step) && step.kind == StepKind::Focus
}

/// The mini timer decision for a snapshot, given whether the main and the
/// floating timer windows are both hidden.
pub open spec fn mini_timer_action(snapshot: TimerSnapshot, primary_timer_windows_hidden: bool) -> MiniTimerAction {
    if !primary_timer_windows_hidden || !is_active_status(snapshot.status) || !shows_focus_step(snapshot) {
        MiniTimerAction::HideMini
    } else if snapshot.status == TimerStatus::Running && snapshot.remaining_ms <= MINI_TIMER_FINAL_WARNING_MS {
        MiniTimerAction::ShowFloatingTimer
    } else if snapshot.remaining_ms > MINI_TIMER_FINAL_WARNING_MS {
        MiniTimerAction::ShowMini
    } else {
        MiniTimerAction::HideMini
    }
}

pub fn is_active_timer_status(status: &TimerStatus) -> (r: bool)
    ensures
        r == is_active_status(*status),
{
    match status {
        TimerStatus::Running | TimerStatus::Paused | TimerStatus::AwaitingContinue => true,
        _ => false,
    }
}

pub fn is_focus_step(snapshot: &TimerSnapshot) -> (r: bool)
    ensures
        r == shows_focus_step(*snapshot),
{
    match &snapshot.current_step {
        Some(step) => step.kind == StepKind::Focus,
        None => false,
    }
}

/// Whether to show the mini timer, bring back the floating timer, or hide the
/// mini timer, for a snapshot and the visibility of the primary windows.
pub fn mini_timer_action_for_snapshot(snapshot: &TimerSnapshot, primary_timer_windows_hidden: bool) -> (r: MiniTimerAction)
    ensures
        r == mini_timer_action(*snapshot, primary_timer_windows_hidden),
{
    if !primary_timer_windows_hidden || !is_active_timer_status(&snapshot.status) || !is_focus_step(snapshot) {
        return MiniTimerAction::HideMini;
    }
    if snapshot.status == TimerStatus::Running && snapshot.remaining_ms <= MINI_TIMER_FINAL_WARNING_MS {
        return MiniTimerAction::ShowFloatingTimer;
    }
    if snapshot.remaining_ms > MINI_TIMER_FINAL_WARNING_MS {
        MiniTimerAction::ShowMini
    } else {
        MiniTimerAction::HideMini
    }
}

/// The mini timer appears only for a focus step of a session under way, while
/// both primary windows are hidden and more than five seconds remain; it never
/// appears during breaks. In the final five seconds of running focus the
/// floating timer comes back instead.
pub proof fn law_mini_timer_rules(snapshot: TimerSnapshot, hidden: bool)
    ensures
        mini_timer_action(snapshot, hidden) == MiniTimerAction::ShowMini ==> {
            &&& hidden
            &&& is_active_status(snapshot.status)
            &&& shows_focus_step(snapshot)
            &&& snapshot.remaining_ms > MINI_TIMER_FINAL_WARNING_MS
        },
        (snapshot.current_step matches Some(step) && step.kind == StepKind::ShortBreak)
            ==> mini_timer_action(snapshot, hidden) == MiniTimerAction::HideMini,
        !hidden ==> mini_timer_action(snapshot, hidden) == MiniTimerAction::HideMini,
        (hidden && snapshot.status == TimerStatus::Running && shows_focus_step(snapshot)
            && snapshot.remaining_ms <= MINI_TIMER_FINAL_WARNING_MS)
            <==> mini_timer_action(snapshot, hidden) == MiniTimerAction::ShowFloatingTimer,
{
}

} // verus!
