//! The one-shot prompt mode: what each report of the turn prints.

use vstd::prelude::*;

use crate::session::SessionUpdate;

verus! {

/// What prompt mode does with one report.
#[derive(Debug)]
pub enum CliStep {
    /// Print this text as it comes, without a line break.
    Print(String),
    /// End the output line and stop: the turn is over.
    EndLine,
    /// Report this message on standard error and stop.
    Fail(String),
    /// Nothing to show.
    Skip,
}

/// The message prompt mode reports for a failed turn.
pub open spec fn failure_text(error: Seq<char>) -> Seq<char> {
    "error: "@ + error
}

/// Text is printed as it streams, the end of the turn ends the line, a
/// failure is reported as an error; tool reports are not shown.
pub fn cli_step(update: SessionUpdate) -> (res: CliStep)
    ensures
        (match update {
            SessionUpdate::AgentMessageChunk { text, .. } => res matches CliStep::Print(t) && t == text,
            SessionUpdate::TurnEnd { .. } => res is EndLine,
            SessionUpdate::Failed { error, .. } => res matches CliStep::Fail(m) && m@ == failure_text(error@),
            _ => res is Skip,
        }),
{
    match update {
        SessionUpdate::AgentMessageChunk { text, .. } => CliStep::Print(text),
        SessionUpdate::TurnEnd { .. } => CliStep::EndLine,
        SessionUpdate::Failed { error, .. } => {
            let mut m = String::new();
            m.append("error: ");
            m.append(error.as_str());
            CliStep::Fail(m)
        },
        _ => CliStep::Skip,
    }
}

} // verus!
