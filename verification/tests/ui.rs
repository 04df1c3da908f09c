use owncode::app::{Item, Status, ToolItem};
use owncode::session::{ToolCall, ToolCallId, ToolStatus};
use owncode::ui::status::{status_text, title};
use owncode::ui::tool_call::glyph;
use owncode::ui::transcript::{build_lines, max_offset, page_height, total_height};
use owncode::ui::{input_height, layout, main_area, Align, Area, Tone};

#[test]
fn screen_rows() {
    let [main, input, status] = layout(Area { x: 0, y: 0, width: 80, height: 24 }, 3);
    assert_eq!(main, Area { x: 0, y: 0, width: 80, height: 20 });
    assert_eq!(input, Area { x: 0, y: 20, width: 80, height: 3 });
    assert_eq!(status, Area { x: 0, y: 23, width: 80, height: 1 });
    assert_eq!(main_area(80, 24, 1), main);
}

#[test]
fn input_box_height() {
    assert_eq!(input_height(1), 3);
    assert_eq!(input_height(0), 2);
    assert_eq!(input_height(usize::MAX), u16::MAX);
    assert_eq!(input_height(65533), u16::MAX);
    assert_eq!(input_height(65532), 65534);
}

#[test]
fn page_height_inside_the_border() {
    assert_eq!(page_height(Area { x: 0, y: 0, width: 80, height: 20 }), 17);
    assert_eq!(page_height(Area { x: 0, y: 0, width: 80, height: 3 }), 1);
    assert_eq!(page_height(Area { x: 0, y: 0, width: 80, height: 0 }), 1);
}

#[test]
fn wrapped_height_of_the_transcript() {
    let items = vec![Item::User("hello world".into()), Item::Assistant("ok".into())];
    assert_eq!(total_height(&items, 80), 4);
    assert_eq!(total_height(&items, 5), 5);
    assert_eq!(total_height(&items, 0), 0);
    // 5 columns inside a 9-wide box, 3 rows inside a 5-high box
    let area = Area { x: 0, y: 0, width: 9, height: 5 };
    assert_eq!(max_offset(&items, area), 2);
    assert_eq!(max_offset(&items, Area { x: 0, y: 0, width: 80, height: 40 }), 0);
}

#[test]
fn transcript_lines() {
    let tool = ToolItem {
        call: ToolCall { id: ToolCallId("1".into()), name: "bash".into(), arguments: "{}".into() },
        status: ToolStatus::Running,
        expanded: false,
    };
    let items = vec![Item::User("hi".into()), Item::Error("bad".into()), Item::Tool(tool)];
    let ls = build_lines(&items);
    assert_eq!(ls.len(), 6);
    assert_eq!(ls[0].align, Align::Right);
    assert_eq!(ls[0].tone, Tone::Dim);
    assert_eq!(ls[0].spans[0].text, "hi");
    assert!(ls[1].spans.is_empty());
    assert_eq!(ls[2].tone, Tone::Red);
    assert_eq!(ls[4].spans.len(), 3);
    assert_eq!(ls[4].spans[0].text, "◐");
    assert_eq!(ls[4].spans[0].tone, Tone::Yellow);
    assert_eq!(ls[4].spans[1].text, " ");
    assert_eq!(ls[4].spans[2].text, "bash");
    assert_eq!(ls[4].spans[2].tone, Tone::Bold);
}

#[test]
fn tool_marks() {
    assert_eq!(glyph(&ToolStatus::Pending).text, "○");
    assert_eq!(glyph(&ToolStatus::Pending).tone, Tone::Dim);
    assert_eq!(glyph(&ToolStatus::Complete { output: "x".into() }).text, "✓");
    assert_eq!(glyph(&ToolStatus::Complete { output: "x".into() }).tone, Tone::Green);
    assert_eq!(glyph(&ToolStatus::Failed { error: "x".into() }).text, "✗");
    assert_eq!(glyph(&ToolStatus::Failed { error: "x".into() }).tone, Tone::Red);
    let tool = ToolItem {
        call: ToolCall { id: ToolCallId("1".into()), name: "read_file".into(), arguments: "{}".into() },
        status: ToolStatus::Pending,
        expanded: true,
    };
    assert_eq!(owncode::ui::tool_call::line(&tool).spans[2].text, "read_file");
}

#[test]
fn status_bar_words() {
    assert_eq!(status_text(&Status::Idle), "Idle");
    assert_eq!(status_text(&Status::Streaming), "Streaming");
    assert_eq!(title(), "OwnCode");
}
