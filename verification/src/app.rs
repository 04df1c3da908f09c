//! The chat front end's state and its decisions: what a key does, how the
//! transcript grows as the session reports, and how it scrolls.

use vstd::prelude::*;

use crate::session::{SessionUpdate, ToolCall, ToolCallId, ToolStatus};
use crate::text::{is_blank, is_blank_text, join_lines, join_with_newlines, string_views};
use crate::ui::main_area;
use crate::ui::spec_main_area;
use crate::ui::transcript::{max_offset, page_height, spec_max_offset, spec_page_height};
use crate::ui::Area;

verus! {

/// Whether a turn is running.
#[derive(Debug, Clone, Copy, PartialEq, Eq, Structural)]
pub enum Status {
    Idle,
    Streaming,
}

/// A tool call as the transcript shows it.
#[derive(Debug)]
pub struct ToolItem {
    pub call: ToolCall,
    pub status: ToolStatus,
    pub expanded: bool,
}

/// One entry of the transcript.
#[derive(Debug)]
pub enum Item {
    User(String),
    Assistant(String),
    Tool(ToolItem),
    Error(String),
}

/// The content of a transcript entry.
pub enum ItemView {
    User(Seq<char>),
    Assistant(Seq<char>),
    Tool(ToolItem),
    Error(Seq<char>),
}

impl View for Item {
    type V = ItemView;

    open spec fn view(&self) -> ItemView {
        match self {
            Item::User(t) => ItemView::User(t@),
            Item::Assistant(t) => ItemView::Assistant(t@),
            Item::Tool(tool) => ItemView::Tool(*tool),
            Item::Error(t) => ItemView::Error(t@),
        }
    }
}

pub open spec fn items_view(items: Seq<Item>) -> Seq<ItemView> {
    items.map_values(|i: Item| i@)
}

/// Where the transcript is scrolled to, and whether it follows the end.
#[derive(Debug, Clone, Copy, PartialEq, Eq, Structural)]
pub struct ScrollState {
    pub offset: u16,
    pub pinned: bool,
}

impl Default for ScrollState {
    fn default() -> (res: Self)
        ensures
            res == (ScrollState { offset: 0, pinned: true }),
    {
        ScrollState { offset: 0, pinned: true }
    }
}

/// The transcript after a piece of the assistant's text arrives: appended to
/// the last entry when that is the assistant's, a new entry otherwise.
pub open spec fn with_text_chunk(v: Seq<ItemView>, text: Seq<char>) -> Seq<ItemView> {
    if v.len() > 0 && v.last() is Assistant {
        v.update(v.len() - 1, ItemView::Assistant(v.last()->Assistant_0 + text))
    } else {
        v.push(ItemView::Assistant(text))
    }
}

/// Text from the assistant only ever extends an assistant entry at the end:
/// after anything else (or on an empty transcript) it starts a new assistant
/// entry, and no earlier entry changes; a user's prompt is never altered.
pub proof fn lemma_text_chunk_only_extends_assistant(v: Seq<ItemView>, t: Seq<char>)
    ensures
        (v.len() == 0 || !(v.last() is Assistant)) ==> with_text_chunk(v, t) == v.push(
            ItemView::Assistant(t),
        ),
        v.len() > 0 && v.last() is Assistant ==> with_text_chunk(v, t).len() == v.len()
            && with_text_chunk(v, t).last() == ItemView::Assistant(v.last()->Assistant_0 + t),
        with_text_chunk(v, t).len() > 0 && with_text_chunk(v, t).last() is Assistant,
        forall|i: int|
            0 <= i < v.len() - 1 ==> #[trigger] with_text_chunk(v, t)[i] == v[i],
        forall|i: int|
            0 <= i < v.len() && (#[trigger] v[i]) is User ==> with_text_chunk(v, t)[i] == v[i],
{
}

/// Text that arrives in two pieces leaves the transcript as the whole text
/// arriving at once would.
pub proof fn lemma_text_chunks_concatenate(v: Seq<ItemView>, a: Seq<char>, b: Seq<char>)
    ensures
        with_text_chunk(with_text_chunk(v, a), b) == with_text_chunk(v, a + b),
{
    let w = with_text_chunk(v, a);
    assert(w.len() > 0 && w.last() is Assistant);
    if v.len() > 0 && v.last() is Assistant {
        assert(v.last()->Assistant_0 + a + b =~= v.last()->Assistant_0 + (a + b));
        assert(with_text_chunk(w, b) =~= with_text_chunk(v, a + b));
    } else {
        assert(with_text_chunk(w, b) =~= with_text_chunk(v, a + b));
    }
}

/// The scroll state after scrolling up `amount` rows.
pub open spec fn scrolled_up(s: ScrollState, amount: u16) -> ScrollState {
    ScrollState {
        offset: if s.offset >= amount {
            (s.offset - amount) as u16
        } else {
            0
        },
        pinned: false,
    }
}

/// The scroll state after scrolling down `amount` rows when `max` is the end.
pub open spec fn scrolled_down(s: ScrollState, amount: u16, max: u16) -> ScrollState {
    let sum = if s.offset + amount <= u16::MAX {
        (s.offset + amount) as u16
    } else {
        u16::MAX
    };
    let offset = if sum <= max {
        sum
    } else {
        max
    };
    ScrollState { offset, pinned: offset == max }
}

/// Scrolling keeps the offset between the top and the end, and a scroll
/// down follows the end exactly when it reaches it.
pub proof fn lemma_scroll_within_range(s: ScrollState, amount: u16, max: u16)
    requires
        s.offset <= max,
    ensures
        scrolled_up(s, amount).offset <= s.offset,
        !scrolled_up(s, amount).pinned,
        s.offset <= scrolled_down(s, amount, max).offset <= max,
        scrolled_down(s, amount, max).pinned <==> scrolled_down(s, amount, max).offset == max,
{
}

/// Scrolling down undoes scrolling up by the same amount, when the view was
/// at least that far from the top and not past the end.
pub proof fn lemma_scroll_down_undoes_up(s: ScrollState, amount: u16, max: u16)
    requires
        amount <= s.offset <= max,
    ensures
        scrolled_down(scrolled_up(s, amount), amount, max).offset == s.offset,
{
}

/// The modifier bits of a key press, as the terminal reports them.
pub const MODIFIER_NONE: u8 = 0;
pub const MODIFIER_CONTROL: u8 = 2;

/// The keys the front end tells apart.
#[derive(Debug, Clone, Copy, PartialEq, Eq, Structural)]
pub enum KeyCodeInput {
    Char(char),
    Enter,
    PageUp,
    PageDown,
    Other,
}

/// A key with the modifier bits held with it.
#[derive(Debug, Clone, Copy, PartialEq, Eq, Structural)]
pub struct KeyInput {
    pub code: KeyCodeInput,
    pub modifiers: u8,
}

/// Whether a key event is a press, a repeat or a release.
#[derive(Debug, Clone, Copy, PartialEq, Eq, Structural)]
pub enum KeyKind {
    Press,
    Repeat,
    Release,
}

/// A terminal event as far as the front end reads it.
#[derive(Debug, Clone, Copy, PartialEq, Eq, Structural)]
pub enum TermEvent {
    Key(KeyInput, KeyKind),
    Other,
}

/// What the user asked for.
#[derive(Debug, Clone, Copy, PartialEq, Eq, Structural)]
pub enum Action {
    Quit,
    Cancel,
    Submit,
    Input(KeyInput),
    ScrollUp,
    ScrollDown,
    PageUp,
    PageDown,
}

/// What the front end has to carry out after an action.
#[derive(Debug)]
pub enum Effect {
    /// Nothing beyond the state change.
    Done,
    /// Clear the input box and send this prompt to the backend.
    Prompt(String),
    /// Ask the backend to cancel the running turn.
    Cancel,
    /// Hand the key to the input box.
    ForwardInput(KeyInput),
}

/// The action a key press asks for: Ctrl-C quits, Enter submits, Ctrl-U and
/// Ctrl-D scroll half a page, Page Up and Page Down a page; every other key
/// is typed into the input box.
pub open spec fn spec_key_action(key: KeyInput) -> Action {
    if key.modifiers == MODIFIER_CONTROL && key.code == KeyCodeInput::Char('c') {
        Action::Quit
    } else if key.modifiers == MODIFIER_NONE && key.code == KeyCodeInput::Enter {
        Action::Submit
    } else if key.modifiers == MODIFIER_CONTROL && key.code == KeyCodeInput::Char('u') {
        Action::ScrollUp
    } else if key.modifiers == MODIFIER_CONTROL && key.code == KeyCodeInput::Char('d') {
        Action::ScrollDown
    } else if key.modifiers == MODIFIER_NONE && key.code == KeyCodeInput::PageUp {
        Action::PageUp
    } else if key.modifiers == MODIFIER_NONE && key.code == KeyCodeInput::PageDown {
        Action::PageDown
    } else {
        Action::Input(key)
    }
}

/// The chat front end's state.
pub struct App {
    pub transcript: Vec<Item>,
    pub scroll: ScrollState,
    pub status: Status,
    pub should_quit: bool,
}

/// An item is the tool call with this id.
pub open spec fn is_tool_with_id(item: Item, id: Seq<char>) -> bool {
    item matches Item::Tool(t) && t.call.id.0@ == id
}

/// The screen size the front end draws on.
#[derive(Debug, Clone, Copy, PartialEq, Eq, Structural)]
pub struct Screen {
    pub width: u16,
    pub height: u16,
}

/// The number of lines an empty input box holds.
pub open spec fn empty_input_lines() -> nat {
    1
}

/// The transcript's area on this screen with an input box of this many lines.
pub open spec fn screen_main_area(screen: Screen, input_lines: nat) -> Area {
    spec_main_area(screen.width, screen.height, input_lines)
}

impl App {
    pub open spec fn transcript_view(&self) -> Seq<ItemView> {
        items_view(self.transcript@)
    }

    /// The front end as it starts: the sample transcript, scrolled to the
    /// top and following the end, idle.
    pub fn new() -> (res: App)
        ensures
            items_view(res.transcript@) == spec_mock_items(),
            res.scroll == (ScrollState { offset: 0, pinned: true }),
            res.status == Status::Idle,
            !res.should_quit,
    {
        App {
            transcript: createMockItems(),
            scroll: ScrollState::default(),
            status: Status::Idle,
            should_quit: false,
        }
    }

    /// The action a terminal event asks for: only key presses count.
    pub fn handle_event(&self, event: TermEvent) -> (res: Option<Action>)
        ensures
            res == (match event {
                TermEvent::Key(key, KeyKind::Press) => Some(spec_key_action(key)),
                _ => None,
            }),
    {
        match event {
            TermEvent::Key(key, kind) => {
                if kind != KeyKind::Press {
                    return None;
                }
                self.handle_key(key)
            },
            TermEvent::Other => None,
        }
    }

    /// The action a pressed key asks for.
    pub fn handle_key(&self, key: KeyInput) -> (res: Option<Action>)
        ensures
            res == Some(spec_key_action(key)),
    {
        let ctrl = key.modifiers == MODIFIER_CONTROL;
        let none = key.modifiers == MODIFIER_NONE;
        match key.code {
            KeyCodeInput::Char(c) => {
                if ctrl && c == 'c' {
                    Some(Action::Quit)
                } else if ctrl && c == 'u' {
                    Some(Action::ScrollUp)
                } else if ctrl && c == 'd' {
                    Some(Action::ScrollDown)
                } else {
                    Some(Action::Input(key))
                }
            },
            KeyCodeInput::Enter => if none {
                Some(Action::Submit)
            } else {
                Some(Action::Input(key))
            },
            KeyCodeInput::PageUp => if none {
                Some(Action::PageUp)
            } else {
                Some(Action::Input(key))
            },
            KeyCodeInput::PageDown => if none {
                Some(Action::PageDown)
            } else {
                Some(Action::Input(key))
            },
            KeyCodeInput::Other => Some(Action::Input(key)),
        }
    }

    /// How far the transcript can scroll in this area.
    pub fn max_scroll_offset(&self, area: Area) -> (res: u16)
        ensures
            res == spec_max_offset(self.transcript_view(), area),
    {
        max_offset(&self.transcript, area)
    }

    /// Moves to the end when following it.
    pub fn scroll_follow(&mut self, area: Area)
        ensures
            final(self).transcript == old(self).transcript,
            final(self).status == old(self).status,
            final(self).should_quit == old(self).should_quit,
            final(self).scroll.pinned == old(self).scroll.pinned,
            final(self).scroll.offset == (if old(self).scroll.pinned {
                spec_max_offset(old(self).transcript_view(), area)
            } else {
                old(self).scroll.offset
            }),
    {
        if self.scroll.pinned {
            self.scroll.offset = self.max_scroll_offset(area);
        }
    }

    /// Scrolls up by `amount` rows, stopping at the top, and stops following
    /// the end.
    pub fn scroll_up(&mut self, amount: u16)
        ensures
            final(self).transcript == old(self).transcript,
            final(self).status == old(self).status,
            final(self).should_quit == old(self).should_quit,
            final(self).scroll == scrolled_up(old(self).scroll, amount),
    {
        self.scroll.pinned = false;
        self.scroll.offset = if self.scroll.offset >= amount {
            self.scroll.offset - amount
        } else {
            0
        };
    }

    /// Scrolls down by `amount` rows, stopping at the end, and follows the
    /// end exactly when it is reached.
    pub fn scroll_down(&mut self, amount: u16, area: Area)
        ensures
            final(self).transcript == old(self).transcript,
            final(self).status == old(self).status,
            final(self).should_quit == old(self).should_quit,
            final(self).scroll == scrolled_down(
                old(self).scroll,
                amount,
                spec_max_offset(old(self).transcript_view(), area),
            ),
    {
        let max_scroll = self.max_scroll_offset(area);
        let sum = self.scroll.offset.saturating_add(amount);
        self.scroll.offset = if sum <= max_scroll {
            sum
        } else {
            max_scroll
        };
        self.scroll.pinned = self.scroll.offset == max_scroll;
    }

    /// Submits the input box's lines: blank input does nothing; otherwise the
    /// text joined by newlines enters the transcript, a turn starts, and the
    /// view follows the end again, measured with the emptied input box. The
    /// text to send to the backend is returned.
    pub fn submit(&mut self, input_lines: &Vec<String>, screen: Screen) -> (res: Option<String>)
        ensures
            ({
                let text = join_lines(string_views(input_lines@));
                if is_blank_text(text) {
                    &&& res is None
                    &&& final(self).transcript == old(self).transcript
                    &&& final(self).scroll == old(self).scroll
                    &&& final(self).status == old(self).status
                } else {
                    &&& res matches Some(t) && t@ == text
                    &&& final(self).transcript_view() == old(self).transcript_view().push(ItemView::User(text))
                    &&& final(self).status == Status::Streaming
                    &&& final(self).scroll.pinned
                    &&& final(self).scroll.offset == spec_max_offset(
                        final(self).transcript_view(),
                        screen_main_area(screen, empty_input_lines()),
                    )
                }
            }),
            final(self).should_quit == old(self).should_quit,
    {
        let text = join_with_newlines(input_lines);
        if is_blank(text.as_str()) {
            return None;
        }
        let ghost before = self.transcript@;
        self.transcript.push(Item::User(text.clone()));
        assert(self.transcript_view() =~= items_view(before).push(ItemView::User(text@)));
        self.status = Status::Streaming;
        self.scroll.pinned = true;
        let area = main_area(screen.width, screen.height, 1);
        self.scroll_follow(area);
        Some(text)
    }

    /// The position of the latest transcript entry that is the tool call
    /// with this id.
    pub fn find_tool_item(&self, id: &ToolCallId) -> (res: Option<usize>)
        ensures
            res matches Some(i) ==> i < self.transcript@.len() && is_tool_with_id(self.transcript@[i as int], id.0@)
                && forall|j: int| i < j < self.transcript@.len() ==> !is_tool_with_id(#[trigger] self.transcript@[j], id.0@),
            res is None ==> forall|j: int| 0 <= j < self.transcript@.len() ==> !is_tool_with_id(#[trigger] self.transcript@[j], id.0@),
    {
        let mut i = self.transcript.len();
        while i > 0
            invariant
                i <= self.transcript@.len(),
                forall|j: int| i <= j < self.transcript@.len() ==> !is_tool_with_id(#[trigger] self.transcript@[j], id.0@),
            decreases i,
        {
            i = i - 1;
            match &self.transcript[i] {
                Item::Tool(tool) => {
                    if tool.call.id.same_as(id) {
                        return Some(i);
                    }
                },
                _ => {},
            }
        }
        None
    }

    /// The transcript and status side of a report; the scroll is left alone.
    fn apply_to_transcript(&mut self, update: SessionUpdate)
        ensures
            final(self).scroll == old(self).scroll,
            final(self).should_quit == old(self).should_quit,
            !(update is TurnEnd) ==> final(self).status == old(self).status,
            (match update {
                SessionUpdate::AgentMessageChunk { text, .. } => final(self).transcript_view()
                    == with_text_chunk(old(self).transcript_view(), text@),
                SessionUpdate::ToolCallStarted { call, .. } => final(self).transcript@
                    == old(self).transcript@.push(
                    Item::Tool(ToolItem { call, status: ToolStatus::Pending, expanded: false }),
                ),
                SessionUpdate::ToolCallUpdate { id, status, .. } => {
                    let t = old(self).transcript@;
                    &&& (forall|j: int| 0 <= j < t.len() ==> !is_tool_with_id(#[trigger] t[j], id.0@))
                        ==> final(self).transcript == old(self).transcript
                    &&& forall|i: int|
                        0 <= i < t.len() && is_tool_with_id(#[trigger] t[i], id.0@) && (forall|j: int|
                            i < j < t.len() ==> !is_tool_with_id(#[trigger] t[j], id.0@))
                            ==> final(self).transcript@ == t.update(
                            i,
                            Item::Tool(ToolItem {
                                call: t[i]->Tool_0.call,
                                status,
                                expanded: t[i]->Tool_0.expanded,
                            }),
                        )
                },
                SessionUpdate::TurnEnd { .. } => final(self).transcript == old(self).transcript
                    && final(self).status == Status::Idle,
                SessionUpdate::Failed { error, .. } => final(self).transcript@
                    == old(self).transcript@.push(Item::Error(error)),
            }),
    {
        match update {
            SessionUpdate::AgentMessageChunk { text, .. } => {
                let n = self.transcript.len();
                let ghost v = self.transcript_view();
                if n > 0 {
                    let is_assistant = match &self.transcript[n - 1] {
                        Item::Assistant(_) => true,
                        _ => false,
                    };
                    if is_assistant {
                        let mut last = Item::Error(String::new());
                        self.transcript.set_and_swap(n - 1, &mut last);
                        let appended = match last {
                            Item::Assistant(mut s) => {
                                s.append(text.as_str());
                                s
                            },
                            _ => text,
                        };
                        self.transcript.set(n - 1, Item::Assistant(appended));
                        assert(self.transcript_view() =~= v.update(
                            v.len() - 1,
                            ItemView::Assistant(v.last()->Assistant_0 + text@),
                        ));
                        return;
                    }
                }
                self.transcript.push(Item::Assistant(text));
                assert(self.transcript_view() =~= v.push(ItemView::Assistant(text@)));
            },
            SessionUpdate::ToolCallStarted { call, .. } => {
                self.transcript.push(
                    Item::Tool(ToolItem { call, status: ToolStatus::Pending, expanded: false }),
                );
            },
            SessionUpdate::ToolCallUpdate { id, status, .. } => {
                let ghost t = self.transcript@;
                match self.find_tool_item(&id) {
                    Some(i) => {
                        let mut slot = Item::Error(String::new());
                        self.transcript.set_and_swap(i, &mut slot);
                        match slot {
                            Item::Tool(tool) => {
                                self.transcript.set(
                                    i,
                                    Item::Tool(ToolItem { call: tool.call, status, expanded: tool.expanded }),
                                );
                            },
                            other => {
                                self.transcript.set(i, other);
                            },
                        }
                        assert forall|k: int|
                            0 <= k < t.len() && is_tool_with_id(#[trigger] t[k], id.0@) && (forall|j: int|
                                k < j < t.len() ==> !is_tool_with_id(#[trigger] t[j], id.0@))
                            implies k == i by {
                            if k < i {
                                assert(!is_tool_with_id(t[i as int], id.0@));
                            }
                            if k > i {
                                assert(is_tool_with_id(t[i as int], id.0@));
                            }
                        }
                    },
                    None => {},
                }
            },
            SessionUpdate::TurnEnd { .. } => {
                self.status = Status::Idle;
            },
            SessionUpdate::Failed { error, .. } => {
                self.transcript.push(Item::Error(error));
            },
        }
    }

    /// Takes in one report of the running turn: text is appended to the
    /// assistant's entry when it is the last one, or starts a new one; a
    /// starting tool call enters as pending; a tool call's new status goes to
    /// its latest entry, if any; the end of a turn makes the front end idle;
    /// a failure enters as an error.
    /// A view that follows the end moves to the new end, measured on the
    /// transcript's area with the input box as it stands; a view that does
    /// not follow stays where it is.
    pub fn apply_session_update(&mut self, update: SessionUpdate, input_lines: &Vec<String>, screen: Screen)
        ensures
            final(self).should_quit == old(self).should_quit,
            !(update is TurnEnd) ==> final(self).status == old(self).status,
            final(self).scroll.pinned == old(self).scroll.pinned,
            final(self).scroll.offset == (if old(self).scroll.pinned {
                spec_max_offset(
                    final(self).transcript_view(),
                    screen_main_area(screen, input_lines@.len()),
                )
            } else {
                old(self).scroll.offset
            }),
            (match update {
                SessionUpdate::AgentMessageChunk { text, .. } => final(self).transcript_view()
                    == with_text_chunk(old(self).transcript_view(), text@),
                SessionUpdate::ToolCallStarted { call, .. } => final(self).transcript@
                    == old(self).transcript@.push(
                    Item::Tool(ToolItem { call, status: ToolStatus::Pending, expanded: false }),
                ),
                SessionUpdate::ToolCallUpdate { id, status, .. } => {
                    let t = old(self).transcript@;
                    &&& (forall|j: int| 0 <= j < t.len() ==> !is_tool_with_id(#[trigger] t[j], id.0@))
                        ==> final(self).transcript == old(self).transcript
                    &&& forall|i: int|
                        0 <= i < t.len() && is_tool_with_id(#[trigger] t[i], id.0@) && (forall|j: int|
                            i < j < t.len() ==> !is_tool_with_id(#[trigger] t[j], id.0@))
                            ==> final(self).transcript@ == t.update(
                            i,
                            Item::Tool(ToolItem {
                                call: t[i]->Tool_0.call,
                                status,
                                expanded: t[i]->Tool_0.expanded,
                            }),
                        )
                },
                SessionUpdate::TurnEnd { .. } => final(self).transcript == old(self).transcript
                    && final(self).status == Status::Idle,
                SessionUpdate::Failed { error, .. } => final(self).transcript@
                    == old(self).transcript@.push(Item::Error(error)),
            }),
    {
        self.apply_to_transcript(update);
        let area = main_area(screen.width, screen.height, input_lines.len());
        self.scroll_follow(area);
    }

    /// Carries out an action on a screen of this size with the input box
    /// holding these lines, and says what the front end has to do next.
    /// Scrolling up or down moves half a page, Page Up and Page Down a page;
    /// a page is measured on the transcript's area with the current input box.
    pub fn update(&mut self, action: Action, input_lines: &Vec<String>, screen: Screen) -> (res: Effect)
        ensures
            ({
                let area = screen_main_area(screen, input_lines@.len());
                let max = spec_max_offset(old(self).transcript_view(), area);
                let page = spec_page_height(area);
                match action {
                    Action::Quit => final(self).should_quit && res is Done
                        && final(self).transcript == old(self).transcript
                        && final(self).scroll == old(self).scroll
                        && final(self).status == old(self).status,
                    Action::Submit => {
                        let text = join_lines(string_views(input_lines@));
                        &&& final(self).should_quit == old(self).should_quit
                        &&& if is_blank_text(text) {
                            &&& res is Done
                            &&& final(self).transcript == old(self).transcript
                            &&& final(self).scroll == old(self).scroll
                            &&& final(self).status == old(self).status
                        } else {
                            &&& res matches Effect::Prompt(t) && t@ == text
                            &&& final(self).transcript_view() == old(self).transcript_view().push(
                                ItemView::User(text),
                            )
                            &&& final(self).status == Status::Streaming
                            &&& final(self).scroll.pinned
                            &&& final(self).scroll.offset == spec_max_offset(
                                final(self).transcript_view(),
                                screen_main_area(screen, empty_input_lines()),
                            )
                        }
                    },
                    Action::Cancel => res is Cancel && *final(self) == *old(self),
                    Action::Input(key) => res == Effect::ForwardInput(key) && *final(self) == *old(self),
                    Action::ScrollUp => res is Done && final(self).scroll == scrolled_up(
                        old(self).scroll,
                        (page / 2) as u16,
                    ) && final(self).transcript == old(self).transcript && final(self).status
                        == old(self).status && final(self).should_quit == old(self).should_quit,
                    Action::ScrollDown => res is Done && final(self).scroll == scrolled_down(
                        old(self).scroll,
                        (page / 2) as u16,
                        max,
                    ) && final(self).transcript == old(self).transcript && final(self).status
                        == old(self).status && final(self).should_quit == old(self).should_quit,
                    Action::PageUp => res is Done && final(self).scroll == scrolled_up(
                        old(self).scroll,
                        page,
                    ) && final(self).transcript == old(self).transcript && final(self).status
                        == old(self).status && final(self).should_quit == old(self).should_quit,
                    Action::PageDown => res is Done && final(self).scroll == scrolled_down(
                        old(self).scroll,
                        page,
                        max,
                    ) && final(self).transcript == old(self).transcript && final(self).status
                        == old(self).status && final(self).should_quit == old(self).should_quit,
                }
            }),
    {
        match action {
            Action::Quit => {
                self.should_quit = true;
                Effect::Done
            },
            Action::Submit => match self.submit(input_lines, screen) {
                Some(text) => Effect::Prompt(text),
                None => Effect::Done,
            },
            Action::Cancel => Effect::Cancel,
            Action::Input(key) => Effect::ForwardInput(key),
            Action::ScrollUp => {
                let area = main_area(screen.width, screen.height, input_lines.len());
                let amount = page_height(area) / 2;
                self.scroll_up(amount);
                Effect::Done
            },
            Action::ScrollDown => {
                let area = main_area(screen.width, screen.height, input_lines.len());
                let amount = page_height(area) / 2;
                self.scroll_down(amount, area);
                Effect::Done
            },
            Action::PageUp => {
                let area = main_area(screen.width, screen.height, input_lines.len());
                let amount = page_height(area);
                self.scroll_up(amount);
                Effect::Done
            },
            Action::PageDown => {
                let area = main_area(screen.width, screen.height, input_lines.len());
                let amount = page_height(area);
                self.scroll_down(amount, area);
                Effect::Done
            },
        }
    }
}

/// The sample conversation the front end starts with.
pub open spec fn spec_mock_items() -> Seq<ItemView> {
    seq![
        ItemView::User("what is ownership in rust"@),
        ItemView::Assistant(
            "Every value in Rust has a single owner. When the owner goes out of \
             scope, the value is dropped. You can move ownership to another \
             binding, or lend it out temporarily with a reference — but there \
             is only ever one owner at a time, and the compiler checks this \
             statically rather than at runtime."@,
        ),
        ItemView::User("借用とムーブの違いを教えて"@),
        ItemView::Assistant(
            "ムーブは所有権そのものを渡します。渡した側の変数はもう使えません。\
             借用は参照を貸すだけなので、元の変数は有効なままです。可変借用は\
             同時に一つしか存在できません。"@,
        ),
        ItemView::User("short"@),
        ItemView::Assistant("ok"@),
        ItemView::Error("connection reset by peer"@),
    ]
}

#[allow(non_snake_case)]
pub fn createMockItems() -> (res: Vec<Item>)
    ensures
        items_view(res@) == spec_mock_items(),
{
    let mut v: Vec<Item> = Vec::new();
    v.push(Item::User(String::from_str("what is ownership in rust")));
    v.push(
        Item::Assistant(
            String::from_str(
                "Every value in Rust has a single owner. When the owner goes out of \
             scope, the value is dropped. You can move ownership to another \
             binding, or lend it out temporarily with a reference — but there \
             is only ever one owner at a time, and the compiler checks this \
             statically rather than at runtime.",
            ),
        ),
    );
    v.push(Item::User(String::from_str("借用とムーブの違いを教えて")));
    v.push(
        Item::Assistant(
            String::from_str(
                "ムーブは所有権そのものを渡します。渡した側の変数はもう使えません。\
             借用は参照を貸すだけなので、元の変数は有効なままです。可変借用は\
             同時に一つしか存在できません。",
            ),
        ),
    );
    v.push(Item::User(String::from_str("short")));
    v.push(Item::Assistant(String::from_str("ok")));
    v.push(Item::Error(String::from_str("connection reset by peer")));
    assert(items_view(v@) =~= spec_mock_items());
    v
}

} // verus!
