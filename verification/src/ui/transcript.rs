//! The transcript pane: its lines, and the scroll geometry that depends on
//! how they wrap.

use vstd::prelude::*;

use ratatui::text::{Line, Span};
use ratatui::widgets::{Paragraph, Wrap};

use crate::app::{Item, ItemView, items_view};
use crate::ui::tool_call::{line, spec_tool_line};
use crate::ui::{Align, Area, LineView, StyledLine, StyledSpan, Tone, line_texts, lines_view};

verus! {

/// The horizontal padding inside the transcript's border.
pub const H_PADDING: u16 = 1;

/// The line that shows one item: the user's text dimmed on the right, the
/// assistant's text plain, an error in red, a tool call as its own line.
pub open spec fn spec_item_line(item: ItemView) -> LineView {
    match item {
        ItemView::User(t) => LineView { spans: seq![(t, Tone::Plain)], tone: Tone::Dim, align: Align::Right },
        ItemView::Assistant(t) => LineView { spans: seq![(t, Tone::Plain)], tone: Tone::Plain, align: Align::Left },
        ItemView::Error(t) => LineView { spans: seq![(t, Tone::Plain)], tone: Tone::Red, align: Align::Left },
        ItemView::Tool(tool) => spec_tool_line(tool),
    }
}

/// An empty line.
pub open spec fn blank_line() -> LineView {
    LineView { spans: Seq::empty(), tone: Tone::Plain, align: Align::Left }
}

/// The transcript's lines: each item's line followed by an empty line.
pub open spec fn spec_lines(items: Seq<ItemView>) -> Seq<LineView>
    decreases items.len(),
{
    if items.len() == 0 {
        Seq::empty()
    } else {
        spec_lines(items.drop_last()).push(spec_item_line(items.last())).push(blank_line())
    }
}

fn single_line(text: String, tone: Tone, align: Align) -> (res: StyledLine)
    ensures
        res@ == (LineView { spans: seq![(text@, Tone::Plain)], tone, align }),
{
    let mut spans: Vec<StyledSpan> = Vec::new();
    spans.push(StyledSpan { text, tone: Tone::Plain });
    let res = StyledLine { spans, tone, align };
    assert(res@.spans =~= seq![(text@, Tone::Plain)]);
    res
}

pub fn item_line(item: &Item) -> (res: StyledLine)
    ensures
        res@ == spec_item_line(item@),
{
    match item {
        Item::User(text) => single_line(text.clone(), Tone::Dim, Align::Right),
        Item::Assistant(text) => single_line(text.clone(), Tone::Plain, Align::Left),
        Item::Error(text) => single_line(text.clone(), Tone::Red, Align::Left),
        Item::Tool(tool) => line(tool),
    }
}

pub fn build_lines(items: &Vec<Item>) -> (res: Vec<StyledLine>)
    ensures
        lines_view(res@) == spec_lines(items_view(items@)),
{
    let mut lines: Vec<StyledLine> = Vec::new();
    let mut i: usize = 0;
    while i < items.len()
        invariant
            i <= items@.len(),
            lines_view(lines@) == spec_lines(items_view(items@.take(i as int))),
        decreases items@.len() - i,
    {
        let l = item_line(&items[i]);
        let blank = StyledLine { spans: Vec::new(), tone: Tone::Plain, align: Align::Left };
        assert(blank@.spans =~= Seq::<(Seq<char>, Tone)>::empty());
        let ghost prev = lines@;
        let ghost lv = l@;
        let ghost bv = blank@;
        lines.push(l);
        lines.push(blank);
        proof {
            assert(lines_view(lines@) =~= lines_view(prev).push(lv).push(bv));
            let t = items_view(items@.take(i + 1));
            assert(t.drop_last() =~= items_view(items@.take(i as int)));
            assert(t.last() == items@[i as int]@);
            assert(lines_view(lines@) =~= spec_lines(items_view(items@.take(i as int))).push(
                spec_item_line(items@[i as int]@),
            ).push(blank_line()));
        }
        i = i + 1;
    }
    assert(items@.take(items@.len() as int) =~= items@);
    lines
}

pub open spec fn sat_sub(a: u16, b: u16) -> u16 {
    if a >= b {
        (a - b) as u16
    } else {
        0
    }
}

pub open spec fn sat_add(a: u16, b: u16) -> u16 {
    if a + b <= u16::MAX {
        (a + b) as u16
    } else {
        u16::MAX
    }
}

pub open spec fn min_u16(a: u16, b: u16) -> u16 {
    if a <= b {
        a
    } else {
        b
    }
}

/// The inside of the transcript's bordered block with one cell of
/// horizontal padding, as `Block::inner` computes it: one cell off each
/// border, then the padding off the left and right.
pub open spec fn block_inner(a: Area) -> Area {
    let x1 = min_u16(sat_add(a.x, 1), sat_add(a.x, a.width));
    let y1 = min_u16(sat_add(a.y, 1), sat_add(a.y, a.height));
    Area {
        x: sat_add(x1, H_PADDING),
        y: y1,
        width: sat_sub(sat_sub(sat_sub(a.width, 1), 1), (2 * H_PADDING) as u16),
        height: sat_sub(sat_sub(a.height, 1), 1),
    }
}

/// The inside of the transcript's block: one cell off each border, then the
/// padding off the left and right, saturating at zero.
pub fn inner_area(area: Area) -> (res: Area)
    ensures
        res == block_inner(area),
{
    let x1 = area.x.saturating_add(1);
    let right = area.x.saturating_add(area.width);
    let x1 = if x1 <= right {
        x1
    } else {
        right
    };
    let y1 = area.y.saturating_add(1);
    let bottom = area.y.saturating_add(area.height);
    let y1 = if y1 <= bottom {
        y1
    } else {
        bottom
    };
    let width = area.width.saturating_sub(1).saturating_sub(1).saturating_sub(2 * H_PADDING);
    let height = area.height.saturating_sub(1).saturating_sub(1);
    Area { x: x1.saturating_add(H_PADDING), y: y1, width, height }
}

/// The number of rows that ratatui's `Paragraph` wrapped with `Wrap { trim }`
/// needs for lines made of these pieces of text, at the given width.
pub uninterp spec fn wrapped_line_count(lines: Seq<Seq<Seq<char>>>, width: u16, trim: bool) -> usize;

/// The rows the lines take when wrapped at `width` with `Wrap { trim }`, as
/// `Paragraph::line_count` counts them; zero at width zero, as its source
/// returns first. Styles do not change the count and are not handed over.
#[verifier::external_body]
fn line_count(lines: &Vec<StyledLine>, width: u16, trim: bool) -> (res: usize)
    ensures
        res == wrapped_line_count(line_texts(lines_view(lines@)), width, trim),
        width == 0 ==> res == 0,
{
    let text: Vec<Line> = lines
        .iter()
        .map(|l| Line::from(l.spans.iter().map(|s| Span::raw(s.text.as_str())).collect::<Vec<_>>()))
        .collect();
    Paragraph::new(text).wrap(Wrap { trim }).line_count(width)
}

/// The transcript's lines wrap without trimming.
pub open spec fn transcript_trims() -> bool {
    false
}

/// The transcript's height in rows at a content width, kept to 16 bits as
/// the front end keeps it.
pub open spec fn spec_total_height(items: Seq<ItemView>, content_width: u16) -> u16 {
    wrapped_line_count(line_texts(spec_lines(items)), content_width, transcript_trims()) as u16
}

pub fn total_height(items: &Vec<Item>, content_width: u16) -> (res: u16)
    ensures
        res == spec_total_height(items_view(items@), content_width),
{
    let lines = build_lines(items);
    let n = line_count(&lines, content_width, false);
    n as u16
}

/// How far the transcript can scroll: its height beyond the rows that show.
pub open spec fn spec_max_offset(items: Seq<ItemView>, area: Area) -> u16 {
    let inner = block_inner(area);
    sat_sub(spec_total_height(items, inner.width), inner.height)
}

/// The inside of the transcript's block is four columns narrower (two
/// borders and the padding on both sides) and two rows lower than the block,
/// never less than nothing.
pub proof fn lemma_block_inner_size(a: Area)
    ensures
        block_inner(a).width == (if a.width >= 4 {
            (a.width - 4) as u16
        } else {
            0
        }),
        block_inner(a).height == (if a.height >= 2 {
            (a.height - 2) as u16
        } else {
            0
        }),
{
}

/// The end of the transcript is where its last wrapped row, measured at the
/// width the text is drawn at inside the border and padding, is the last row
/// shown: the offset plus the rows shown covers the whole wrapped height.
pub proof fn lemma_max_offset_reaches_last_row(items: Seq<ItemView>, area: Area)
    ensures
        ({
            let w: u16 = if area.width >= 4 {
                (area.width - 4) as u16
            } else {
                0
            };
            let h: u16 = if area.height >= 2 {
                (area.height - 2) as u16
            } else {
                0
            };
            let total = spec_total_height(items, w);
            &&& spec_max_offset(items, area) == (if total >= h {
                (total - h) as u16
            } else {
                0
            })
            &&& spec_max_offset(items, area) + h >= total
        }),
{
    lemma_block_inner_size(area);
}

pub fn max_offset(items: &Vec<Item>, area: Area) -> (res: u16)
    ensures
        res == spec_max_offset(items_view(items@), area),
{
    let inner = inner_area(area);
    let total = total_height(items, inner.width);
    if total >= inner.height {
        total - inner.height
    } else {
        0
    }
}

/// The rows one page scrolls: the rows that show less the padding, at least one.
pub open spec fn spec_page_height(area: Area) -> u16 {
    let h = sat_sub(block_inner(area).height, H_PADDING);
    if h >= 1 {
        h
    } else {
        1
    }
}

/// A page always moves at least one row, and never more than the rows that
/// show inside the border (when any do).
pub proof fn lemma_page_height_bounds(area: Area)
    ensures
        spec_page_height(area) >= 1,
        block_inner(area).height >= 1 ==> spec_page_height(area) <= block_inner(area).height,
{
}

pub fn page_height(area: Area) -> (res: u16)
    ensures
        res == spec_page_height(area),
{
    let inner = inner_area(area);
    let h = if inner.height >= H_PADDING {
        inner.height - H_PADDING
    } else {
        0
    };
    if h >= 1 {
        h
    } else {
        1
    }
}

} // verus!
