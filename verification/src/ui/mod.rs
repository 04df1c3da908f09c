//! Screen geometry and the display model of the chat screen. Rendering
//! itself happens in the terminal front end; this module decides what goes
//! where.

use vstd::prelude::*;

use ratatui::layout::{Constraint, Layout, Rect};

pub mod status;
pub mod tool_call;
pub mod transcript;

verus! {

/// A rectangle of terminal cells.
#[derive(Debug, Clone, Copy, PartialEq, Eq, Structural)]
pub struct Area {
    pub x: u16,
    pub y: u16,
    pub width: u16,
    pub height: u16,
}

/// An area as a plain tuple (x, y, width, height).
pub open spec fn area_tuple(a: Area) -> (u16, u16, u16, u16) {
    (a.x, a.y, a.width, a.height)
}

/// A size rule for one row of a vertical layout: at least so many rows, or
/// exactly so many.
#[derive(Debug, Clone, Copy, PartialEq, Eq, Structural)]
pub enum SizeRule {
    Min(u16),
    Length(u16),
}

/// The three rows that ratatui's layout solver computes for `area` split
/// vertically by these three size rules, in order.
pub uninterp spec fn vertical_split(
    area: (u16, u16, u16, u16),
    rules: (SizeRule, SizeRule, SizeRule),
) -> ((u16, u16, u16, u16), (u16, u16, u16, u16), (u16, u16, u16, u16));

/// `Layout::vertical(rules).areas(area)`, each rule as ratatui's
/// `Constraint` of the same name; what the solver returns is left to the
/// name `vertical_split`.
#[verifier::external_body]
fn split_vertical(area: Area, rules: [SizeRule; 3]) -> (res: [Area; 3])
    ensures
        (area_tuple(res[0]), area_tuple(res[1]), area_tuple(res[2])) == vertical_split(
            area_tuple(area),
            (rules[0], rules[1], rules[2]),
        ),
{
    let constraint = |r: SizeRule| match r {
        SizeRule::Min(v) => Constraint::Min(v),
        SizeRule::Length(v) => Constraint::Length(v),
    };
    let rect = Rect { x: area.x, y: area.y, width: area.width, height: area.height };
    let [a, b, c]: [Rect; 3] = Layout::vertical(rules.map(constraint)).areas(rect);
    let conv = |r: Rect| Area { x: r.x, y: r.y, width: r.width, height: r.height };
    [conv(a), conv(b), conv(c)]
}

/// The rows of the screen: the transcript takes what is left, the input box
/// `input_height` rows, the status bar one row.
pub open spec fn screen_rules(input_height: u16) -> (SizeRule, SizeRule, SizeRule) {
    (SizeRule::Min(0), SizeRule::Length(input_height), SizeRule::Length(1))
}

/// The screen split into transcript, input box and status bar.
pub fn layout(area: Area, input_height: u16) -> (res: [Area; 3])
    ensures
        (area_tuple(res[0]), area_tuple(res[1]), area_tuple(res[2])) == vertical_split(
            area_tuple(area),
            screen_rules(input_height),
        ),
{
    let rules = [SizeRule::Min(0), SizeRule::Length(input_height), SizeRule::Length(1)];
    split_vertical(area, rules)
}

/// The height of the bordered input box: its lines and the two borders.
pub open spec fn spec_input_height(line_count: nat) -> u16 {
    if line_count + 2 <= u16::MAX {
        (line_count + 2) as u16
    } else {
        u16::MAX
    }
}

pub fn input_height(line_count: usize) -> (res: u16)
    ensures
        res == spec_input_height(line_count as nat),
{
    if line_count <= (u16::MAX - 2) as usize {
        (line_count + 2) as u16
    } else {
        u16::MAX
    }
}

/// The transcript's area on a screen of the given size, with an input box
/// of `input_lines` lines.
pub open spec fn spec_main_area(width: u16, height: u16, input_lines: nat) -> Area {
    let t = vertical_split((0, 0, width, height), screen_rules(spec_input_height(input_lines))).0;
    Area { x: t.0, y: t.1, width: t.2, height: t.3 }
}

pub fn main_area(width: u16, height: u16, input_lines: usize) -> (res: Area)
    ensures
        res == spec_main_area(width, height, input_lines as nat),
{
    let areas = layout(Area { x: 0, y: 0, width, height }, input_height(input_lines));
    areas[0]
}

/// The colour or weight a piece of text is shown with.
#[derive(Debug, Clone, Copy, PartialEq, Eq, Structural)]
pub enum Tone {
    Plain,
    Dim,
    Bold,
    Red,
    Yellow,
    Green,
}

/// Which side a line is aligned to.
#[derive(Debug, Clone, Copy, PartialEq, Eq, Structural)]
pub enum Align {
    Left,
    Right,
}

/// A piece of text in one tone.
#[derive(Debug)]
pub struct StyledSpan {
    pub text: String,
    pub tone: Tone,
}

/// One line of the display: its pieces, the tone of the whole line, and its
/// alignment.
#[derive(Debug)]
pub struct StyledLine {
    pub spans: Vec<StyledSpan>,
    pub tone: Tone,
    pub align: Align,
}

/// The content of a display line.
pub struct LineView {
    pub spans: Seq<(Seq<char>, Tone)>,
    pub tone: Tone,
    pub align: Align,
}

impl View for StyledLine {
    type V = LineView;

    open spec fn view(&self) -> LineView {
        LineView {
            spans: self.spans@.map_values(|s: StyledSpan| (s.text@, s.tone)),
            tone: self.tone,
            align: self.align,
        }
    }
}

pub open spec fn lines_view(lines: Seq<StyledLine>) -> Seq<LineView> {
    lines.map_values(|l: StyledLine| l@)
}

/// The texts of a line's pieces.
pub open spec fn span_texts(l: LineView) -> Seq<Seq<char>> {
    l.spans.map_values(|s: (Seq<char>, Tone)| s.0)
}

/// The texts of the pieces of each line.
pub open spec fn line_texts(lines: Seq<LineView>) -> Seq<Seq<Seq<char>>> {
    lines.map_values(|l: LineView| span_texts(l))
}

} // verus!
