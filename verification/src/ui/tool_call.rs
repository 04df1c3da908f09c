//! How a tool call is shown in the transcript.

use vstd::prelude::*;

use crate::app::ToolItem;
use crate::session::ToolStatus;
use crate::ui::{Align, LineView, StyledLine, StyledSpan, Tone};

verus! {

/// The mark and tone that show a call's status.
pub open spec fn spec_glyph(status: ToolStatus) -> (Seq<char>, Tone) {
    match status {
        ToolStatus::Pending => ("○"@, Tone::Dim),
        ToolStatus::Running => ("◐"@, Tone::Yellow),
        ToolStatus::Complete { .. } => ("✓"@, Tone::Green),
        ToolStatus::Failed { .. } => ("✗"@, Tone::Red),
    }
}

pub fn glyph(status: &ToolStatus) -> (res: StyledSpan)
    ensures
        (res.text@, res.tone) == spec_glyph(*status),
{
    match status {
        ToolStatus::Pending => StyledSpan { text: String::from_str("○"), tone: Tone::Dim },
        ToolStatus::Running => StyledSpan { text: String::from_str("◐"), tone: Tone::Yellow },
        ToolStatus::Complete { .. } => StyledSpan { text: String::from_str("✓"), tone: Tone::Green },
        ToolStatus::Failed { .. } => StyledSpan { text: String::from_str("✗"), tone: Tone::Red },
    }
}

/// A tool call's line: its status mark, a space, and the tool's name in bold.
pub open spec fn spec_tool_line(tool: ToolItem) -> LineView {
    LineView {
        spans: seq![spec_glyph(tool.status), (" "@, Tone::Plain), (tool.call.name@, Tone::Bold)],
        tone: Tone::Plain,
        align: Align::Left,
    }
}

pub fn line(tool: &ToolItem) -> (res: StyledLine)
    ensures
        res@ == spec_tool_line(*tool),
{
    let mut spans: Vec<StyledSpan> = Vec::new();
    spans.push(glyph(&tool.status));
    spans.push(StyledSpan { text: String::from_str(" "), tone: Tone::Plain });
    spans.push(StyledSpan { text: tool.call.name.clone(), tone: Tone::Bold });
    let res = StyledLine { spans, tone: Tone::Plain, align: Align::Left };
    assert(res@.spans =~= spec_tool_line(*tool).spans);
    res
}

} // verus!
