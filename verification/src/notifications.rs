use vstd::prelude::*;

use crate::models::{StepKind, TimerStatus};
use crate::snapshot::{TimerSnapshot, TimerSnapshotCtaKind};

verus! {

pub open spec fn completion_title_text(snapshot: TimerSnapshot) -> Seq<char> {
    match snapshot.current_step {
        Some(step) => if step.kind == StepKind::Focus { "Enfoque completado"@ } else { "Descanso completado"@ },
        None => "Etapa completada"@,
    }
}

pub open spec fn completion_body_text(snapshot: TimerSnapshot) -> Seq<char> {
    match snapshot.cta.kind {
        TimerSnapshotCtaKind::StartBreak => "Cuando estés listo, iniciá tu descanso."@,
        TimerSnapshotCtaKind::StartFocus => "Cuando quieras, iniciá el próximo enfoque."@,
        TimerSnapshotCtaKind::Restart => "Ciclo de enfoque completado."@,
        _ => "Etapa del temporizador completada."@,
    }
}

/// The title of the notification shown when a step completes: it names the
/// kind of the step that completed.
pub fn completion_title(snapshot: &TimerSnapshot) -> (r: &'static str)
    ensures
        r@ == completion_title_text(*snapshot),
{
    match &snapshot.current_step {
        Some(step) => match step.kind {
            StepKind::Focus => "Enfoque completado",
            StepKind::ShortBreak => "Descanso completado",
        },
        None => "Etapa completada",
    }
}

/// The body of the notification shown when a step completes: it says what
/// the user can do next.
pub fn completion_body(snapshot: &TimerSnapshot) -> (r: &'static str)
    ensures
        r@ == completion_body_text(*snapshot),
{
    match snapshot.cta.kind {
        TimerSnapshotCtaKind::StartBreak => "Cuando estés listo, iniciá tu descanso.",
        TimerSnapshotCtaKind::StartFocus => "Cuando quieras, iniciá el próximo enfoque.",
        TimerSnapshotCtaKind::Restart => "Ciclo de enfoque completado.",
        _ => "Etapa del temporizador completada.",
    }
}

/// What follows the notice that a step completed.
#[derive(Clone, Copy, Debug, PartialEq, Eq, Structural)]
pub enum CompletionFollowUp {
    /// The session waits for the user to begin the next step.
    AwaitContinue,
    /// The whole cycle is completed.
    CycleCompleted,
    /// Nothing more to announce.
    Nothing,
}

/// What to announce after a step completed, by the status it left the
/// session in.
pub fn completion_follow_up(status: TimerStatus) -> (r: CompletionFollowUp)
    ensures
        r == (match status {
            TimerStatus::AwaitingContinue => CompletionFollowUp::AwaitContinue,
            TimerStatus::Completed => CompletionFollowUp::CycleCompleted,
            _ => CompletionFollowUp::Nothing,
        }),
{
    match status {
        TimerStatus::AwaitingContinue => CompletionFollowUp::AwaitContinue,
        TimerStatus::Completed => CompletionFollowUp::CycleCompleted,
        _ => CompletionFollowUp::Nothing,
    }
}

} // verus!
