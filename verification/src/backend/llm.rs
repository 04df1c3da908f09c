//! The chat-completions backend: the wire records exchanged with the model,
//! the accumulation of a streamed reply, and the agent loop's decisions.

use std::collections::BTreeMap;

use vstd::prelude::*;
use vstd::laws_cmp::obeys_cmp;
use vstd::std_specs::cmp::OrdSpec;
use vstd::std_specs::btree::increasing_seq;
use vstd::std_specs::iter::IteratorSpec;

use crate::session::{SessionId, SessionUpdate, StopReason, ToolCall, ToolCallId, ToolStatus};
use crate::text::str_eq;
use crate::tools::{same_schema, ParamSchema, ToolResult, ToolSpec};

verus! {

/// How the model ended a reply.
#[derive(Debug, Clone, Copy, PartialEq, Eq, Structural)]
pub enum ChatFinishKind {
    Stop,
    ToolCall,
}

/// The finish kind that a wire `finish_reason` names, if any.
pub open spec fn finish_kind_of(reason: Seq<char>) -> Option<ChatFinishKind> {
    if reason == "stop"@ {
        Some(ChatFinishKind::Stop)
    } else if reason == "tool_calls"@ {
        Some(ChatFinishKind::ToolCall)
    } else {
        None
    }
}

impl ChatFinishKind {
    pub fn from_reason(reason: &str) -> (res: Option<ChatFinishKind>)
        ensures
            res == finish_kind_of(reason@),
    {
        if str_eq(reason, "stop") {
            Some(ChatFinishKind::Stop)
        } else if str_eq(reason, "tool_calls") {
            Some(ChatFinishKind::ToolCall)
        } else {
            None
        }
    }
}

/// One streamed piece of a tool call's function: its name or a piece of its
/// arguments.
#[derive(Debug)]
pub struct ToolFunctionChunk {
    pub name: Option<String>,
    pub arguments: Option<String>,
}

/// One streamed piece of the tool call at position `index` of the reply.
#[derive(Debug)]
pub struct ToolCallChunk {
    pub index: usize,
    pub id: Option<String>,
    pub function: Option<ToolFunctionChunk>,
}

/// A tool call while its pieces arrive.
#[derive(Debug)]
pub struct PartialToolCall {
    pub id: String,
    pub name: String,
    pub arguments: String,
}

/// The text content of a partial tool call.
pub struct PartialCallView {
    pub id: Seq<char>,
    pub name: Seq<char>,
    pub arguments: Seq<char>,
}

impl View for PartialToolCall {
    type V = PartialCallView;

    open spec fn view(&self) -> PartialCallView {
        PartialCallView { id: self.id@, name: self.name@, arguments: self.arguments@ }
    }
}

/// A partial tool call before any piece arrived.
pub open spec fn empty_partial() -> PartialCallView {
    PartialCallView { id: Seq::empty(), name: Seq::empty(), arguments: Seq::empty() }
}

/// A piece applied to a partial call: a given id or name replaces the one
/// held, a given piece of arguments is appended.
pub open spec fn pushed(p: PartialCallView, c: ToolCallChunk) -> PartialCallView {
    let id = match c.id {
        Some(i) => i@,
        None => p.id,
    };
    let name = match c.function {
        Some(f) => match f.name {
            Some(n) => n@,
            None => p.name,
        },
        None => p.name,
    };
    let arguments = match c.function {
        Some(f) => match f.arguments {
            Some(a) => p.arguments + a@,
            None => p.arguments,
        },
        None => p.arguments,
    };
    PartialCallView { id, name, arguments }
}

impl PartialToolCall {
    pub fn new() -> (res: PartialToolCall)
        ensures
            res@ == empty_partial(),
    {
        PartialToolCall { id: String::new(), name: String::new(), arguments: String::new() }
    }

    pub fn push_chunk(&mut self, chunk: ToolCallChunk)
        ensures
            final(self)@ == pushed(old(self)@, chunk),
    {
        if let Some(id) = chunk.id {
            self.id = id;
        }
        if let Some(function) = chunk.function {
            if let Some(name) = function.name {
                self.name = name;
            }
            if let Some(arguments) = function.arguments {
                self.arguments.append(arguments.as_str());
            }
        }
    }
}

/// A piece applied to the partial calls by position: the call at the piece's
/// index takes it, created empty when there was none.
pub open spec fn upsert(m: Map<usize, PartialCallView>, c: ToolCallChunk) -> Map<usize, PartialCallView> {
    let prev = if m.contains_key(c.index) {
        m[c.index]
    } else {
        empty_partial()
    };
    m.insert(c.index, pushed(prev, c))
}

/// Pieces applied one after the other.
pub open spec fn upsert_all(m: Map<usize, PartialCallView>, cs: Seq<ToolCallChunk>) -> Map<
    usize,
    PartialCallView,
>
    decreases cs.len(),
{
    if cs.len() == 0 {
        m
    } else {
        upsert(upsert_all(m, cs.drop_last()), cs.last())
    }
}

/// Applying a piece adds its position, if new, and leaves the call at every
/// other position as it was.
pub proof fn lemma_upsert_touches_one_position(m: Map<usize, PartialCallView>, c: ToolCallChunk)
    ensures
        upsert(m, c).dom() == m.dom().insert(c.index),
        forall|k: usize| m.contains_key(k) && k != c.index ==> #[trigger] upsert(m, c)[k] == m[k],
{
    assert(upsert(m, c).dom() =~= m.dom().insert(c.index));
}

/// The arguments text that a piece carries, empty when it carries none.
pub open spec fn piece_arguments(c: ToolCallChunk) -> Seq<char> {
    match c.function {
        Some(f) => match f.arguments {
            Some(a) => a@,
            None => Seq::empty(),
        },
        None => Seq::empty(),
    }
}

/// A piece only ever adds its own arguments text to the end of the call it
/// is applied to.
pub proof fn lemma_pushed_appends_arguments(p: PartialCallView, c: ToolCallChunk)
    ensures
        pushed(p, c).arguments == p.arguments + piece_arguments(c),
        c.id is None ==> pushed(p, c).id == p.id,
        c.id matches Some(i) ==> pushed(p, c).id == i@,
{
    assert(p.arguments + Seq::<char>::empty() =~= p.arguments);
}

/// A piece for a position that has no call yet starts a call from an empty
/// one: its arguments are exactly the piece's arguments, and its id and name
/// are only what the piece gives. A piece for a position that has a call
/// extends that call and no other.
pub proof fn lemma_upsert_new_position_starts_empty(m: Map<usize, PartialCallView>, c: ToolCallChunk)
    ensures
        upsert(m, c).contains_key(c.index),
        !m.contains_key(c.index) ==> upsert(m, c)[c.index] == pushed(empty_partial(), c),
        !m.contains_key(c.index) ==> upsert(m, c)[c.index].arguments == piece_arguments(c),
        !m.contains_key(c.index) && c.id is None ==> upsert(m, c)[c.index].id.len() == 0,
        m.contains_key(c.index) ==> upsert(m, c)[c.index] == pushed(m[c.index], c),
        m.contains_key(c.index) ==> upsert(m, c)[c.index].arguments == m[c.index].arguments
            + piece_arguments(c),
{
    lemma_pushed_appends_arguments(empty_partial(), c);
    assert(Seq::<char>::empty() + piece_arguments(c) =~= piece_arguments(c));
    if m.contains_key(c.index) {
        lemma_pushed_appends_arguments(m[c.index], c);
    }
}

/// Positions listed once each, in increasing order, covering exactly the
/// positions of the calls.
pub open spec fn in_position_order(ks: Seq<usize>, m: Map<usize, PartialCallView>) -> bool {
    &&& forall|i: int, j: int| 0 <= i < j < ks.len() ==> ks[i] < ks[j]
    &&& ks.to_set() == m.dom()
}

/// The partial tool calls of a streamed reply, by position.
pub struct PartialCalls {
    map: BTreeMap<usize, PartialToolCall>,
}

impl View for PartialCalls {
    type V = Map<usize, PartialCallView>;

    closed spec fn view(&self) -> Map<usize, PartialCallView> {
        self.map@.map_values(|p: PartialToolCall| p@)
    }
}

impl PartialToolCall {
    /// A copy with the same content.
    pub fn duplicate(&self) -> (res: PartialToolCall)
        ensures
            res@ == self@,
    {
        PartialToolCall { id: self.id.clone(), name: self.name.clone(), arguments: self.arguments.clone() }
    }
}

impl PartialCalls {
    pub fn new() -> (res: PartialCalls)
        ensures
            res@ == Map::<usize, PartialCallView>::empty(),
    {
        let res = PartialCalls { map: BTreeMap::new() };
        assert(res@ =~= Map::<usize, PartialCallView>::empty());
        res
    }

    /// Applies one piece: the call for its index takes it, created empty
    /// where there was none.
    pub fn apply(&mut self, chunk: ToolCallChunk)
        ensures
            final(self)@ == upsert(old(self)@, chunk),
            !old(self)@.contains_key(chunk.index) ==> final(self)@[chunk.index] == pushed(
                empty_partial(),
                chunk,
            ),
    {
        let ghost m = self.map@;
        let idx = chunk.index;
        let mut p = match self.map.remove(&idx) {
            Some(p) => p,
            None => PartialToolCall::new(),
        };
        assert(p@ == (if old(self)@.contains_key(idx) {
            old(self)@[idx]
        } else {
            empty_partial()
        }));
        p.push_chunk(chunk);
        self.map.insert(idx, p);
        assert(self@ =~= upsert(old(self)@, chunk));
    }

    /// The calls in position order, as `into_values` gives them.
    pub fn into_values(self) -> (res: Vec<PartialToolCall>)
        ensures
            exists|ks: Seq<usize>|
                {
                    &&& in_position_order(ks, self@)
                    &&& ks.len() == res@.len()
                    &&& forall|i: int| 0 <= i < res@.len() ==> (#[trigger] res@[i])@ == self@[ks[i]]
                },
    {
        let ghost m = self@;
        let ghost dom = self.map@.dom();
        proof {
            assert(obeys_cmp::<usize>());
        }
        let mut res: Vec<PartialToolCall> = Vec::new();
        let values = self.map.values();
        let ghost ks = choose|ks: Seq<usize>|
            {
                &&& increasing_seq(ks)
                &&& ks.to_set() == self.map@.dom()
                &&& ks.no_duplicates()
                &&& IteratorSpec::remaining(&values) == ks.map(|i: int, k| &self.map@[k])
            };
        for v in it: values
            invariant
                m == self@,
                dom == self.map@.dom(),
                m == self.map@.map_values(|p: PartialToolCall| p@),
                ks.to_set() == dom,
                res@.len() == it.index(),
                it.seq() == ks.map(|i: int, k| &self.map@[k]),
                forall|i: int| 0 <= i < res@.len() ==> (#[trigger] res@[i])@ == m[ks[i]],
        {
            let ghost j = it.index();
            proof {
                assert(ks.to_set().contains(ks[j]));
                assert(dom.contains(ks[j]));
            }
            res.push(v.duplicate());
        }
        assert(increasing_seq(ks));
        assert forall|i: int, j: int| 0 <= i < j < ks.len() implies ks[i] < ks[j] by {
            assert(ks[i].cmp_spec(&ks[j]) is Less);
        }
        assert(m.dom() =~= dom);
        assert(in_position_order(ks, m));
        res
    }
}

/// Where and how the model is reached.
#[derive(Debug)]
pub struct ProviderConfig {
    pub base_url: String,
    pub api_key: Option<String>,
    pub model: String,
    pub streaming: bool,
}

impl ProviderConfig {
    /// The key handed to the client: the configured one, or a placeholder
    /// for services that want none.
    pub fn api_key_or_placeholder(&self) -> (res: String)
        ensures
            res@ == (match self.api_key {
                Some(k) => k@,
                None => "unused"@,
            }),
    {
        match &self.api_key {
            Some(k) => k.clone(),
            None => String::from_str("unused"),
        }
    }

    /// An exact copy.
    pub fn duplicate(&self) -> (res: ProviderConfig)
        ensures
            res == *self,
    {
        ProviderConfig {
            base_url: self.base_url.clone(),
            api_key: match &self.api_key {
                Some(k) => Some(k.clone()),
                None => None,
            },
            model: self.model.clone(),
            streaming: self.streaming,
        }
    }
}

/// The function part of a complete tool call.
#[derive(Debug)]
pub struct WireToolCallArgs {
    pub name: String,
    pub arguments: String,
}

/// A complete tool call as the chat protocol carries it; `kind` is the
/// wire field `type`.
#[derive(Debug)]
pub struct WireToolCall {
    pub id: String,
    pub kind: String,
    pub function: WireToolCallArgs,
}

impl WireToolCall {
    /// The complete call that a finished partial call becomes, of type `function`.
    pub fn from_partial(value: PartialToolCall) -> (res: WireToolCall)
        ensures
            res.id == value.id,
            res.kind@ == "function"@,
            res.function.name == value.name,
            res.function.arguments == value.arguments,
    {
        WireToolCall {
            id: value.id,
            kind: String::from_str("function"),
            function: WireToolCallArgs { name: value.name, arguments: value.arguments },
        }
    }

    /// An exact copy.
    pub fn duplicate(&self) -> (res: WireToolCall)
        ensures
            res == *self,
    {
        WireToolCall {
            id: self.id.clone(),
            kind: self.kind.clone(),
            function: WireToolCallArgs {
                name: self.function.name.clone(),
                arguments: self.function.arguments.clone(),
            },
        }
    }
}

impl ToolCall {
    /// The session's view of a wire tool call: its id, its function name and
    /// its arguments.
    pub fn from_wire(value: WireToolCall) -> (res: ToolCall)
        ensures
            res.id.0 == value.id,
            res.name == value.function.name,
            res.arguments == value.function.arguments,
    {
        ToolCall {
            id: ToolCallId(value.id),
            name: value.function.name,
            arguments: value.function.arguments,
        }
    }
}

/// The function part of a tool's description on the wire.
#[derive(Debug)]
pub struct WireToolFunction {
    pub name: String,
    pub description: String,
    pub parameters: ParamSchema,
}

/// A tool as described to the model; `kind` is the wire field `type`.
#[derive(Debug)]
pub struct WireTool {
    pub kind: String,
    pub function: WireToolFunction,
}

impl WireTool {
    /// The wire description of a tool spec, of type `function`.
    pub fn from_spec(s: &ToolSpec) -> (res: WireTool)
        ensures
            res.kind@ == "function"@,
            res.function.name@ == s.name@,
            res.function.description@ == s.description@,
            same_schema(res.function.parameters, s.parameters),
            res.function.parameters.required@ == s.parameters.required@,
            res.function.parameters.properties@ == s.parameters.properties@,
    {
        WireTool {
            kind: String::from_str("function"),
            function: WireToolFunction {
                name: s.name.to_owned(),
                description: s.description.to_owned(),
                parameters: s.parameters.duplicate(),
            },
        }
    }
}

/// What a chat message is besides its role and content.
#[derive(Debug)]
pub enum ChatMessageKind {
    User,
    Assistant,
    Tool { tool_call_id: String },
    ToolCalls { tool_calls: Vec<WireToolCall> },
}

/// One message of the conversation held with the model.
#[derive(Debug)]
pub struct ChatMessage {
    pub kind: ChatMessageKind,
    pub role: String,
    pub content: Option<String>,
}

impl ChatMessage {
    /// The message that carries the user's prompt.
    pub fn user(text: String) -> (res: ChatMessage)
        ensures
            res.kind is User,
            res.role@ == "user"@,
            res.content == Some(text),
    {
        ChatMessage { kind: ChatMessageKind::User, role: String::from_str("user"), content: Some(text) }
    }
}

/// The change one streamed piece of a reply brings.
#[derive(Debug)]
pub struct Delta {
    pub content: Option<String>,
    pub tool_calls: Option<Vec<ToolCallChunk>>,
}

/// One choice of a streamed piece.
#[derive(Debug)]
pub struct ChoiceChunk {
    pub delta: Delta,
    pub finish_reason: Option<String>,
}

/// One streamed piece of a reply.
#[derive(Debug)]
pub struct ChatChunk {
    pub choices: Vec<ChoiceChunk>,
}

/// What has arrived of a streamed reply: its text, how it ended, and its
/// tool calls.
pub struct ChatStreamState {
    pub text: String,
    pub finish_kind: Option<ChatFinishKind>,
    pub tool_calls: PartialCalls,
}

/// The finish kind that a piece's `finish_reason` sets: an unknown reason
/// counts as a stop.
pub open spec fn stream_finish_kind(reason: Seq<char>) -> ChatFinishKind {
    match finish_kind_of(reason) {
        Some(k) => k,
        None => ChatFinishKind::Stop,
    }
}

impl ChatStreamState {
    pub fn new() -> (res: ChatStreamState)
        ensures
            res.text@ == Seq::<char>::empty(),
            res.finish_kind is None,
            res.tool_calls@ == Map::<usize, PartialCallView>::empty(),
    {
        ChatStreamState { text: String::new(), finish_kind: None, tool_calls: PartialCalls::new() }
    }

    /// Takes in one streamed piece. Only the first choice counts: its text is
    /// appended and reported to the session, its tool-call pieces are applied
    /// in order, and its finish reason, if any, sets how the reply ended.
    pub fn push_chunk(&mut self, chunk: ChatChunk, session: SessionId) -> (updates: Vec<SessionUpdate>)
        ensures
            chunk.choices@.len() == 0 ==> updates@.len() == 0 && final(self).text == old(self).text
                && final(self).finish_kind == old(self).finish_kind && final(self).tool_calls@
                == old(self).tool_calls@,
            chunk.choices@.len() > 0 ==> (match chunk.choices@[0].delta.content {
                Some(t) => final(self).text@ == old(self).text@ + t@ && updates@.len() == 1
                    && updates@[0] == (SessionUpdate::AgentMessageChunk { session, text: t }),
                None => final(self).text == old(self).text && updates@.len() == 0,
            }),
            chunk.choices@.len() > 0 ==> final(self).tool_calls@ == (match chunk.choices@[0].delta.tool_calls {
                Some(cs) => upsert_all(old(self).tool_calls@, cs@),
                None => old(self).tool_calls@,
            }),
            chunk.choices@.len() > 0 ==> final(self).finish_kind == (match chunk.choices@[0].finish_reason {
                Some(r) => Some(stream_finish_kind(r@)),
                None => old(self).finish_kind,
            }),
    {
        let mut updates: Vec<SessionUpdate> = Vec::new();
        let mut choices = chunk.choices;
        if choices.len() == 0 {
            return updates;
        }
        let choice = choices.remove(0);
        if let Some(text) = choice.delta.content {
            self.text.append(text.as_str());
            updates.push(SessionUpdate::AgentMessageChunk { session, text });
        }
        if let Some(chunk_calls) = choice.delta.tool_calls {
            let ghost start = self.tool_calls@;
            let ghost text_now = self.text;
            let ghost kind_now = self.finish_kind;
            let ghost all = chunk_calls@;
            let mut calls = chunk_calls;
            let ghost mut taken: Seq<ToolCallChunk> = Seq::empty();
            while calls.len() > 0
                invariant
                    calls@.len() + taken.len() == all.len(),
                    taken == all.take(taken.len() as int),
                    calls@ == all.skip(taken.len() as int),
                    self.tool_calls@ == upsert_all(start, taken),
                    self.text == text_now,
                    self.finish_kind == kind_now,
                decreases calls@.len(),
            {
                let c = calls.remove(0);
                proof {
                    assert(c == all[taken.len() as int]);
                    let before = taken;
                    taken = taken.push(c);
                    assert(taken.drop_last() =~= before);
                    assert(taken =~= all.take(taken.len() as int));
                    assert(calls@ =~= all.skip(taken.len() as int));
                }
                self.tool_calls.apply(c);
            }
            proof {
                assert(taken =~= all);
            }
        }
        if let Some(reason) = choice.finish_reason {
            let kind = match ChatFinishKind::from_reason(reason.as_str()) {
                Some(k) => k,
                None => ChatFinishKind::Stop,
            };
            self.finish_kind = Some(kind);
        }
        updates
    }
}


/// A complete call that was built from the given partial call.
pub open spec fn wire_matches(w: WireToolCall, p: PartialCallView) -> bool {
    &&& w.id@ == p.id
    &&& w.kind@ == "function"@
    &&& w.function.name@ == p.name
    &&& w.function.arguments@ == p.arguments
}

/// How a streamed reply ended, and what it leaves behind.
pub struct StreamOutcome {
    /// How the reply ended, if it said so.
    pub finish: Option<ChatFinishKind>,
    /// The message that records the reply in the conversation, if any.
    pub message: Option<ChatMessage>,
    /// The tool calls to run, in position order.
    pub calls: Vec<WireToolCall>,
}

impl ChatStreamState {
    /// Closes a streamed reply. A reply that ended for tool calls is
    /// recorded as an assistant message carrying those calls, with its text
    /// only when it has any, and the calls are handed out to be run; a reply
    /// that stopped is recorded as an assistant message with its text; a
    /// reply that never said how it ended records nothing.
    pub fn finish(self) -> (res: StreamOutcome)
        ensures
            res.finish == self.finish_kind,
            self.finish_kind == Some(ChatFinishKind::ToolCall) ==> {
                &&& exists|ks: Seq<usize>|
                    {
                        &&& in_position_order(ks, self.tool_calls@)
                        &&& ks.len() == res.calls@.len()
                        &&& forall|i: int|
                            0 <= i < res.calls@.len() ==> wire_matches(
                                #[trigger] res.calls@[i],
                                self.tool_calls@[ks[i]],
                            )
                    }
                &&& res.message matches Some(m) && m.role@ == "assistant"@ && (m.kind matches ChatMessageKind::ToolCalls { tool_calls } && tool_calls@ == res.calls@)
                    && (if self.text@.len() == 0 { m.content is None } else { m.content == Some(self.text) })
            },
            self.finish_kind == Some(ChatFinishKind::Stop) ==> {
                &&& res.calls@.len() == 0
                &&& res.message matches Some(m) && m.kind is Assistant && m.role@ == "assistant"@
                    && m.content == Some(self.text)
            },
            self.finish_kind is None ==> res.calls@.len() == 0 && res.message is None,
    {
        match self.finish_kind {
            Some(ChatFinishKind::ToolCall) => {
                let ghost entries = self.tool_calls@;
                let partials = self.tool_calls.into_values();
                let ghost ks = choose|ks: Seq<usize>|
                    {
                        &&& in_position_order(ks, entries)
                        &&& ks.len() == partials@.len()
                        &&& forall|i: int|
                            0 <= i < partials@.len() ==> (#[trigger] partials@[i])@ == entries[ks[i]]
                    };
                let mut calls: Vec<WireToolCall> = Vec::new();
                let mut recorded: Vec<WireToolCall> = Vec::new();
                let mut rest = partials;
                let ghost all = rest@;
                while rest.len() > 0
                    invariant
                        all.len() == ks.len(),
                        forall|i: int| 0 <= i < all.len() ==> (#[trigger] all[i])@ == entries[ks[i]],
                        rest@ == all.skip(calls@.len() as int),
                        calls@.len() <= all.len(),
                        recorded@ == calls@,
                        forall|i: int|
                            0 <= i < calls@.len() ==> wire_matches(#[trigger] calls@[i], entries[ks[i]]),
                    decreases rest@.len(),
                {
                    let p = rest.remove(0);
                    proof {
                        assert(p == all[calls@.len() as int]);
                    }
                    let w = WireToolCall::from_partial(p);
                    let copy = w.duplicate();
                    calls.push(w);
                    recorded.push(copy);
                    proof {
                        assert(rest@ =~= all.skip(calls@.len() as int));
                    }
                }
                let content = if self.text.as_str().unicode_len() == 0 {
                    None
                } else {
                    Some(self.text)
                };
                let message = ChatMessage {
                    kind: ChatMessageKind::ToolCalls { tool_calls: recorded },
                    role: String::from_str("assistant"),
                    content,
                };
                StreamOutcome { finish: self.finish_kind, message: Some(message), calls }
            },
            Some(ChatFinishKind::Stop) => {
                let message = ChatMessage {
                    kind: ChatMessageKind::Assistant,
                    role: String::from_str("assistant"),
                    content: Some(self.text),
                };
                StreamOutcome { finish: self.finish_kind, message: Some(message), calls: Vec::new() }
            },
            None => StreamOutcome { finish: None, message: None, calls: Vec::new() },
        }
    }
}

/// The session's record of a wire tool call.
pub open spec fn session_call(call: WireToolCall) -> ToolCall {
    ToolCall {
        id: ToolCallId(call.id),
        name: call.function.name,
        arguments: call.function.arguments,
    }
}

/// The update announcing that a tool call starts.
pub fn tool_started(session: SessionId, call: &WireToolCall) -> (res: SessionUpdate)
    ensures
        res == (SessionUpdate::ToolCallStarted { session, call: session_call(*call) }),
{
    SessionUpdate::ToolCallStarted { session, call: ToolCall::from_wire(call.duplicate()) }
}

/// The status a tool's result gives its call: complete with the output, or
/// failed with the output as the error.
pub open spec fn status_of_result(result: ToolResult) -> ToolStatus {
    if result.success {
        ToolStatus::Complete { output: result.output }
    } else {
        ToolStatus::Failed { error: result.output }
    }
}

/// What follows a tool's run: the update that reports the call's status,
/// and the tool message that hands the output back to the model.
pub fn tool_finished(session: SessionId, call: &WireToolCall, result: ToolResult) -> (res: (
    SessionUpdate,
    ChatMessage,
))
    ensures
        res.0 == (SessionUpdate::ToolCallUpdate {
            session,
            id: ToolCallId(call.id),
            status: status_of_result(result),
        }),
        res.1.kind == (ChatMessageKind::Tool { tool_call_id: call.id }),
        res.1.role@ == "tool"@,
        res.1.content == Some(result.output),
{
    let status = if result.success {
        ToolStatus::Complete { output: result.output.clone() }
    } else {
        ToolStatus::Failed { error: result.output.clone() }
    };
    let update = SessionUpdate::ToolCallUpdate { session, id: ToolCallId(call.id.clone()), status };
    let message = ChatMessage {
        kind: ChatMessageKind::Tool { tool_call_id: call.id.clone() },
        role: String::from_str("tool"),
        content: Some(result.output),
    };
    (update, message)
}

/// The tool calls of a streamed reply still to run, in order, and whether
/// running them has stopped because the turn was cancelled.
pub struct ToolQueue {
    pub pending: Vec<WireToolCall>,
    pub stopped: bool,
}

/// One check of the queue: once the turn is seen cancelled, the queue stops
/// and hands out nothing more; otherwise the next call, if any, is handed out.
pub open spec fn queue_step(stopped: bool, pending: Seq<WireToolCall>, cancelled: bool) -> (
    bool,
    Seq<WireToolCall>,
    Option<WireToolCall>,
) {
    if stopped || cancelled {
        (true, pending, None)
    } else if pending.len() == 0 {
        (false, pending, None)
    } else {
        (false, pending.drop_first(), Some(pending[0]))
    }
}

/// The calls started over successive checks, given whether the turn was seen
/// cancelled at each.
pub open spec fn started_calls(stopped: bool, pending: Seq<WireToolCall>, flags: Seq<bool>) -> Seq<
    WireToolCall,
>
    decreases flags.len(),
{
    if flags.len() == 0 {
        Seq::empty()
    } else {
        let (st, rest, out) = queue_step(stopped, pending, flags[0]);
        let later = started_calls(st, rest, flags.drop_first());
        match out {
            Some(c) => seq![c] + later,
            None => later,
        }
    }
}

/// A stopped queue starts nothing, whatever follows.
proof fn lemma_stopped_starts_nothing(pending: Seq<WireToolCall>, flags: Seq<bool>)
    ensures
        started_calls(true, pending, flags) == Seq::<WireToolCall>::empty(),
    decreases flags.len(),
{
    if flags.len() > 0 {
        lemma_stopped_starts_nothing(pending, flags.drop_first());
    }
}

/// No tool starts once cancellation is seen: the calls started are those
/// started before the first check that saw it.
pub proof fn lemma_no_tool_after_cancel(
    stopped: bool,
    pending: Seq<WireToolCall>,
    flags: Seq<bool>,
    k: int,
)
    requires
        0 <= k < flags.len(),
        flags[k],
    ensures
        started_calls(stopped, pending, flags) == started_calls(stopped, pending, flags.take(k)),
    decreases k,
{
    let (st, rest, out) = queue_step(stopped, pending, flags[0]);
    if k == 0 {
        lemma_stopped_starts_nothing(rest, flags.drop_first());
        assert(flags.take(0) =~= Seq::<bool>::empty());
    } else {
        lemma_no_tool_after_cancel(st, rest, flags.drop_first(), k - 1);
        assert(flags.take(k).drop_first() =~= flags.drop_first().take(k - 1));
        assert(flags.take(k)[0] == flags[0]);
    }
}

impl ToolQueue {
    /// Checks the queue before running a tool, with whether the turn has been
    /// cancelled: hands out the next call with the update that announces it,
    /// as `queue_step` says.
    pub fn next(&mut self, session: SessionId, cancelled: bool) -> (res: Option<(WireToolCall, SessionUpdate)>)
        ensures
            ({
                let (st, rest, out) = queue_step(old(self).stopped, old(self).pending@, cancelled);
                &&& final(self).stopped == st
                &&& final(self).pending@ == rest
                &&& match out {
                    Some(c) => res matches Some(r) && r.0 == c && r.1 == (SessionUpdate::ToolCallStarted { session, call: session_call(c) }),
                    None => res is None,
                }
            }),
    {
        if self.stopped || cancelled {
            self.stopped = true;
            return None;
        }
        if self.pending.len() == 0 {
            return None;
        }
        let call = self.pending.remove(0);
        let started = tool_started(session, &call);
        Some((call, started))
    }
}

/// Records how a streamed step ended. A step whose wait was cut short by
/// cancellation ends without a finish kind, leaves the conversation as it
/// was and runs no tool; otherwise the reply's message, if any, is added to
/// the conversation and its tool calls are queued to run.
pub fn record_stream_outcome(
    outcome: StreamOutcome,
    cancelled: bool,
    history: &mut Vec<ChatMessage>,
) -> (res: (Option<ChatFinishKind>, ToolQueue))
    ensures
        cancelled ==> res.0 is None && final(history)@ == old(history)@ && res.1.pending@.len() == 0
            && res.1.stopped,
        !cancelled ==> {
            &&& res.0 == outcome.finish
            &&& final(history)@ == (match outcome.message {
                Some(m) => old(history)@.push(m),
                None => old(history)@,
            })
            &&& res.1.pending@ == outcome.calls@
            &&& !res.1.stopped
        },
{
    if cancelled {
        return (None, ToolQueue { pending: Vec::new(), stopped: true });
    }
    if let Some(m) = outcome.message {
        history.push(m);
    }
    (outcome.finish, ToolQueue { pending: outcome.calls, stopped: false })
}

/// What a complete (not streamed) reply leads to.
pub enum ResponsePlan {
    /// Record the reply's text and show it.
    Reply { message: ChatMessage, update: SessionUpdate },
    /// Run the reply's tool calls, one after the other.
    RunTools,
    /// Nothing to record or show.
    Nothing,
    /// The reply did not say how it ended in a way that is understood.
    Unknown,
}

/// Decides on a complete reply from its `finish_reason` and its text
/// content, as far as each is present as a string.
pub fn plan_response(session: SessionId, finish_reason: Option<&str>, content: Option<String>) -> (res: (
    Option<ChatFinishKind>,
    ResponsePlan,
))
    ensures
        res.0 == (match finish_reason {
            Some(r) => finish_kind_of(r@),
            None => None,
        }),
        res.0 is None ==> res.1 is Unknown,
        res.0 == Some(ChatFinishKind::ToolCall) ==> res.1 is RunTools,
        res.0 == Some(ChatFinishKind::Stop) ==> (match content {
            Some(c) => res.1 matches ResponsePlan::Reply { message, update } && message.kind is Assistant
                && message.role@ == "assistant"@ && message.content == Some(c) && (update matches SessionUpdate::AgentMessageChunk { session: s, text } && s == session && text == c),
            None => res.1 is Nothing,
        }),
{
    let kind = match finish_reason {
        Some(r) => ChatFinishKind::from_reason(r),
        None => None,
    };
    match kind {
        None => (None, ResponsePlan::Unknown),
        Some(ChatFinishKind::ToolCall) => (kind, ResponsePlan::RunTools),
        Some(ChatFinishKind::Stop) => match content {
            Some(c) => {
                let message = ChatMessage {
                    kind: ChatMessageKind::Assistant,
                    role: String::from_str("assistant"),
                    content: Some(c.clone()),
                };
                let update = SessionUpdate::AgentMessageChunk { session, text: c };
                (kind, ResponsePlan::Reply { message, update })
            },
            None => (kind, ResponsePlan::Nothing),
        },
    }
}

/// The assistant message that records one tool call of a complete reply
/// before the call runs.
pub fn tool_request_message(call: &WireToolCall) -> (res: ChatMessage)
    ensures
        res.role@ == "assistant"@,
        res.content is None,
        res.kind matches ChatMessageKind::ToolCalls { tool_calls } && tool_calls@ == seq![*call],
{
    let mut tool_calls: Vec<WireToolCall> = Vec::new();
    tool_calls.push(call.duplicate());
    ChatMessage { kind: ChatMessageKind::ToolCalls { tool_calls }, role: String::from_str("assistant"), content: None }
}

/// The bookkeeping of one turn of the agent loop: the session it runs for
/// and the length of the conversation when it began.
pub struct AgentTurn {
    pub session: SessionId,
    pub checkpoint: usize,
}

/// What the loop does after a step.
pub enum StepDecision {
    /// Run another step.
    Continue,
    /// Report this update and end the turn.
    End(SessionUpdate),
}

/// The conversation after a cancelled turn: cut back to its length when the
/// turn began.
pub open spec fn cancelled_history(history: Seq<ChatMessage>, checkpoint: nat) -> Seq<ChatMessage> {
    if checkpoint <= history.len() {
        history.take(checkpoint as int)
    } else {
        history
    }
}

/// The error reported when a step ends without a known finish reason.
pub open spec fn unknown_finish_text() -> Seq<char> {
    "Unexpected agent loop break: Unknown finish_reason"@
}

impl AgentTurn {
    /// Starts a turn on the conversation as it stands.
    pub fn begin(session: SessionId, history: &Vec<ChatMessage>) -> (res: AgentTurn)
        ensures
            res.session == session,
            res.checkpoint == history@.len(),
    {
        AgentTurn { session, checkpoint: history.len() }
    }

    /// The check made before each step: once cancelled, the turn's messages
    /// are removed and the turn ends as cancelled; otherwise nothing changes.
    pub fn check_cancelled(&self, cancelled: bool, history: &mut Vec<ChatMessage>) -> (res: Option<
        SessionUpdate,
    >)
        ensures
            cancelled ==> final(history)@ == cancelled_history(old(history)@, self.checkpoint as nat)
                && res == Some(SessionUpdate::TurnEnd { session: self.session, reason: StopReason::Cancelled }),
            !cancelled ==> final(history)@ == old(history)@ && res is None,
    {
        if cancelled {
            history.truncate(self.checkpoint);
            Some(SessionUpdate::TurnEnd { session: self.session, reason: StopReason::Cancelled })
        } else {
            None
        }
    }

    /// The decision after a step, from how the step's reply ended and
    /// whether the turn was cancelled meanwhile: a stop ends the turn, tool
    /// calls lead to another step, and a reply that did not say how it ended
    /// fails the turn unless a cancellation explains it (the next check then
    /// ends the turn).
    pub fn after_step(&self, outcome: Option<ChatFinishKind>, cancelled: bool) -> (res: StepDecision)
        ensures
            outcome == Some(ChatFinishKind::Stop) ==> res == StepDecision::End(
                SessionUpdate::TurnEnd { session: self.session, reason: StopReason::Stop },
            ),
            outcome == Some(ChatFinishKind::ToolCall) ==> res is Continue,
            outcome is None && cancelled ==> res is Continue,
            outcome is None && !cancelled ==> (res matches StepDecision::End(u) && (u matches SessionUpdate::Failed { session, error } && session == self.session && error@ == unknown_finish_text())),
    {
        match outcome {
            Some(ChatFinishKind::Stop) => StepDecision::End(
                SessionUpdate::TurnEnd { session: self.session, reason: StopReason::Stop },
            ),
            Some(ChatFinishKind::ToolCall) => StepDecision::Continue,
            None => {
                if cancelled {
                    StepDecision::Continue
                } else {
                    StepDecision::End(SessionUpdate::Failed {
                        session: self.session,
                        error: String::from_str("Unexpected agent loop break: Unknown finish_reason"),
                    })
                }
            },
        }
    }
}

/// A cancelled turn leaves the conversation exactly as it was when the turn
/// began, whatever the turn had added to it.
pub proof fn lemma_cancel_restores_history(before: Seq<ChatMessage>, added: Seq<ChatMessage>)
    ensures
        cancelled_history(before + added, before.len()) == before,
{
    assert((before + added).take(before.len() as int) =~= before);
}

} // verus!
