use owncode::backend::llm::{
    record_stream_outcome, ToolQueue,
    AgentTurn, ChatChunk, ChatFinishKind, ChatMessage, ChatMessageKind, ChatStreamState, ChoiceChunk,
    Delta, PartialToolCall, ProviderConfig, ResponsePlan, StepDecision, ToolCallChunk,
    ToolFunctionChunk, WireTool, WireToolCall, WireToolCallArgs, plan_response, tool_finished,
    tool_request_message, tool_started,
};
use owncode::session::{SessionId, SessionUpdate, StopReason, ToolCall, ToolStatus};
use owncode::tools::fs::read_file_spec;
use owncode::tools::ToolResult;

fn piece(index: usize, id: Option<&str>, name: Option<&str>, args: Option<&str>) -> ToolCallChunk {
    ToolCallChunk {
        index,
        id: id.map(String::from),
        function: if name.is_none() && args.is_none() {
            None
        } else {
            Some(ToolFunctionChunk { name: name.map(String::from), arguments: args.map(String::from) })
        },
    }
}

fn chunk(content: Option<&str>, calls: Option<Vec<ToolCallChunk>>, finish: Option<&str>) -> ChatChunk {
    ChatChunk {
        choices: vec![ChoiceChunk {
            delta: Delta { content: content.map(String::from), tool_calls: calls },
            finish_reason: finish.map(String::from),
        }],
    }
}

#[test]
fn finish_reasons() {
    assert_eq!(ChatFinishKind::from_reason("stop"), Some(ChatFinishKind::Stop));
    assert_eq!(ChatFinishKind::from_reason("tool_calls"), Some(ChatFinishKind::ToolCall));
    assert_eq!(ChatFinishKind::from_reason("length"), None);
}

#[test]
fn partial_call_takes_pieces() {
    let mut p = PartialToolCall::new();
    p.push_chunk(piece(0, Some("call_1"), Some("bash"), Some("{\"comm")));
    p.push_chunk(piece(0, None, None, Some("and\":\"ls\"}")));
    p.push_chunk(piece(0, None, None, None));
    assert_eq!(p.id, "call_1");
    assert_eq!(p.name, "bash");
    assert_eq!(p.arguments, "{\"command\":\"ls\"}");
    p.push_chunk(piece(0, Some("call_2"), Some("read_file"), None));
    assert_eq!(p.id, "call_2");
    assert_eq!(p.name, "read_file");
    assert_eq!(p.arguments, "{\"command\":\"ls\"}");
}

#[test]
fn streamed_text_is_appended_and_reported() {
    let s1 = SessionId(1);
    let mut st = ChatStreamState::new();
    let u = st.push_chunk(chunk(Some("Hel"), None, None), s1);
    assert_eq!(u.len(), 1);
    match &u[0] {
        SessionUpdate::AgentMessageChunk { session, text } => {
            assert_eq!(*session, s1);
            assert_eq!(text, "Hel");
        }
        _ => panic!("expected a text chunk"),
    }
    let u = st.push_chunk(chunk(Some("lo"), None, None), s1);
    assert_eq!(u.len(), 1);
    assert_eq!(st.text, "Hello");
    let u = st.push_chunk(chunk(None, None, Some("stop")), s1);
    assert!(u.is_empty());
    assert_eq!(st.finish_kind, Some(ChatFinishKind::Stop));
    let out = st.finish();
    assert_eq!(out.finish, Some(ChatFinishKind::Stop));
    assert!(out.calls.is_empty());
    let m = out.message.unwrap();
    assert!(matches!(m.kind, ChatMessageKind::Assistant));
    assert_eq!(m.role, "assistant");
    assert_eq!(m.content.as_deref(), Some("Hello"));
}

#[test]
fn empty_piece_changes_nothing() {
    let mut st = ChatStreamState::new();
    let u = st.push_chunk(ChatChunk { choices: vec![] }, SessionId(1));
    assert!(u.is_empty());
    assert_eq!(st.text, "");
    assert_eq!(st.finish_kind, None);
}

#[test]
fn unknown_finish_reason_counts_as_stop() {
    let mut st = ChatStreamState::new();
    st.push_chunk(chunk(None, None, Some("length")), SessionId(1));
    assert_eq!(st.finish_kind, Some(ChatFinishKind::Stop));
}

#[test]
fn only_the_first_choice_counts() {
    let mut st = ChatStreamState::new();
    let two = ChatChunk {
        choices: vec![
            ChoiceChunk { delta: Delta { content: Some("a".into()), tool_calls: None }, finish_reason: None },
            ChoiceChunk { delta: Delta { content: Some("b".into()), tool_calls: None }, finish_reason: Some("stop".into()) },
        ],
    };
    let u = st.push_chunk(two, SessionId(1));
    assert_eq!(u.len(), 1);
    assert_eq!(st.text, "a");
    assert_eq!(st.finish_kind, None);
}

#[test]
fn tool_calls_are_assembled_in_position_order() {
    let s = SessionId(7);
    let mut st = ChatStreamState::new();
    st.push_chunk(chunk(Some("Let me look."), Some(vec![piece(2, Some("c2"), Some("bash"), Some("{\"command\":"))]), None), s);
    st.push_chunk(chunk(None, Some(vec![piece(0, Some("c0"), Some("read_file"), Some("{\"file_path\":\"a\"}")), piece(2, None, None, Some("\"ls\"}"))]), None), s);
    st.push_chunk(chunk(None, None, Some("tool_calls")), s);
    let out = st.finish();
    assert_eq!(out.finish, Some(ChatFinishKind::ToolCall));
    assert_eq!(out.calls.len(), 2);
    assert_eq!(out.calls[0].id, "c0");
    assert_eq!(out.calls[0].kind, "function");
    assert_eq!(out.calls[0].function.name, "read_file");
    assert_eq!(out.calls[1].id, "c2");
    assert_eq!(out.calls[1].function.arguments, "{\"command\":\"ls\"}");
    let m = out.message.unwrap();
    assert_eq!(m.role, "assistant");
    assert_eq!(m.content.as_deref(), Some("Let me look."));
    match m.kind {
        ChatMessageKind::ToolCalls { tool_calls } => {
            assert_eq!(tool_calls.len(), 2);
            assert_eq!(tool_calls[0].id, "c0");
            assert_eq!(tool_calls[1].id, "c2");
        }
        _ => panic!("expected tool calls"),
    }
}

#[test]
fn tool_call_reply_without_text_has_no_content() {
    let mut st = ChatStreamState::new();
    st.push_chunk(chunk(None, Some(vec![piece(0, Some("x"), Some("bash"), Some("{}"))]), Some("tool_calls")), SessionId(1));
    let out = st.finish();
    assert!(out.message.unwrap().content.is_none());
}

#[test]
fn reply_without_finish_records_nothing() {
    let mut st = ChatStreamState::new();
    st.push_chunk(chunk(Some("partial"), Some(vec![piece(0, Some("x"), None, None)]), None), SessionId(1));
    let out = st.finish();
    assert_eq!(out.finish, None);
    assert!(out.message.is_none());
    assert!(out.calls.is_empty());
}

fn wire(id: &str, name: &str, args: &str) -> WireToolCall {
    WireToolCall {
        id: id.into(),
        kind: "function".into(),
        function: WireToolCallArgs { name: name.into(), arguments: args.into() },
    }
}

#[test]
fn tool_run_reports() {
    let s = SessionId(3);
    let call = wire("c9", "bash", "{\"command\":\"ls\"}");
    match tool_started(s, &call) {
        SessionUpdate::ToolCallStarted { session, call: ToolCall { id, name, arguments } } => {
            assert_eq!(session, s);
            assert_eq!(id.0, "c9");
            assert_eq!(name, "bash");
            assert_eq!(arguments, "{\"command\":\"ls\"}");
        }
        _ => panic!("expected a start"),
    }
    let (u, m) = tool_finished(s, &call, ToolResult { output: "a\nb".into(), success: true });
    match u {
        SessionUpdate::ToolCallUpdate { id, status: ToolStatus::Complete { output }, .. } => {
            assert_eq!(id.0, "c9");
            assert_eq!(output, "a\nb");
        }
        _ => panic!("expected completion"),
    }
    assert_eq!(m.role, "tool");
    assert_eq!(m.content.as_deref(), Some("a\nb"));
    assert!(matches!(m.kind, ChatMessageKind::Tool { ref tool_call_id } if tool_call_id == "c9"));
    let (u, _) = tool_finished(s, &call, ToolResult { output: "oops".into(), success: false });
    assert!(matches!(u, SessionUpdate::ToolCallUpdate { status: ToolStatus::Failed { ref error }, .. } if error == "oops"));
}

#[test]
fn complete_replies() {
    let s = SessionId(1);
    let (k, plan) = plan_response(s, Some("stop"), Some("Hi".into()));
    assert_eq!(k, Some(ChatFinishKind::Stop));
    match plan {
        ResponsePlan::Reply { message, update } => {
            assert_eq!(message.content.as_deref(), Some("Hi"));
            assert_eq!(message.role, "assistant");
            assert!(matches!(update, SessionUpdate::AgentMessageChunk { ref text, .. } if text == "Hi"));
        }
        _ => panic!("expected a reply"),
    }
    assert!(matches!(plan_response(s, Some("stop"), None), (Some(ChatFinishKind::Stop), ResponsePlan::Nothing)));
    assert!(matches!(plan_response(s, Some("tool_calls"), None), (Some(ChatFinishKind::ToolCall), ResponsePlan::RunTools)));
    assert!(matches!(plan_response(s, Some("length"), Some("x".into())), (None, ResponsePlan::Unknown)));
    assert!(matches!(plan_response(s, None, None), (None, ResponsePlan::Unknown)));
    let m = tool_request_message(&wire("q", "read_file", "{}"));
    assert!(m.content.is_none());
    assert!(matches!(m.kind, ChatMessageKind::ToolCalls { ref tool_calls } if tool_calls.len() == 1 && tool_calls[0].id == "q"));
}

#[test]
fn cancelled_turn_removes_its_messages() {
    let s = SessionId(1);
    let mut history = vec![ChatMessage::user("first".into())];
    let turn = AgentTurn::begin(s, &history);
    assert_eq!(turn.checkpoint, 1);
    assert!(turn.check_cancelled(false, &mut history).is_none());
    history.push(tool_request_message(&wire("a", "bash", "{}")));
    history.push(ChatMessage::user("second".into()));
    let end = turn.check_cancelled(true, &mut history);
    assert!(matches!(end, Some(SessionUpdate::TurnEnd { reason: StopReason::Cancelled, .. })));
    assert_eq!(history.len(), 1);
    assert_eq!(history[0].content.as_deref(), Some("first"));
}

#[test]
fn decisions_after_a_step() {
    let turn = AgentTurn { session: SessionId(2), checkpoint: 0 };
    assert!(matches!(turn.after_step(Some(ChatFinishKind::Stop), false), StepDecision::End(SessionUpdate::TurnEnd { reason: StopReason::Stop, .. })));
    assert!(matches!(turn.after_step(Some(ChatFinishKind::ToolCall), false), StepDecision::Continue));
    assert!(matches!(turn.after_step(None, true), StepDecision::Continue));
    match turn.after_step(None, false) {
        StepDecision::End(SessionUpdate::Failed { error, .. }) => {
            assert_eq!(error, "Unexpected agent loop break: Unknown finish_reason")
        }
        _ => panic!("expected a failure"),
    }
}

#[test]
fn provider_key_placeholder() {
    let mut c = ProviderConfig { base_url: "u".into(), api_key: None, model: "m".into(), streaming: true };
    assert_eq!(c.api_key_or_placeholder(), "unused");
    c.api_key = Some("k".into());
    assert_eq!(c.api_key_or_placeholder(), "k");
    let d = c.duplicate();
    assert_eq!(d.base_url, "u");
    assert_eq!(d.api_key.as_deref(), Some("k"));
}

#[test]
fn tool_description_on_the_wire() {
    let w = WireTool::from_spec(&read_file_spec());
    assert_eq!(w.kind, "function");
    assert_eq!(w.function.name, "read_file");
    assert_eq!(w.function.description, "Read contents of a file");
    assert_eq!(w.function.parameters.required, vec!["file_path"]);
}

#[test]
fn user_message() {
    let m = ChatMessage::user("hi".into());
    assert!(matches!(m.kind, ChatMessageKind::User));
    assert_eq!(m.role, "user");
}

#[test]
fn session_call_of_wire_call() {
    let c = ToolCall::from_wire(wire("i", "n", "a"));
    assert_eq!(c.id.0, "i");
    assert_eq!(c.name, "n");
    assert_eq!(c.arguments, "a");
    let w = WireToolCall::from_partial(PartialToolCall { id: "i".into(), name: "n".into(), arguments: "a".into() });
    assert_eq!(w.kind, "function");
}

#[test]
fn cancelled_stream_records_nothing() {
    let mut st = ChatStreamState::new();
    st.push_chunk(chunk(Some("text"), Some(vec![piece(0, Some("x"), Some("bash"), Some("{}"))]), Some("tool_calls")), SessionId(1));
    let mut history = vec![ChatMessage::user("q".into())];
    let (finish, mut queue) = record_stream_outcome(st.finish(), true, &mut history);
    assert_eq!(finish, None);
    assert_eq!(history.len(), 1);
    assert!(queue.next(SessionId(1), false).is_none());
}

#[test]
fn tools_stop_once_cancelled() {
    let mut st = ChatStreamState::new();
    st.push_chunk(chunk(None, Some(vec![piece(0, Some("a"), Some("bash"), Some("{}")), piece(1, Some("b"), Some("bash"), Some("{}"))]), Some("tool_calls")), SessionId(1));
    let mut history = vec![];
    let (finish, mut queue) = record_stream_outcome(st.finish(), false, &mut history);
    assert_eq!(finish, Some(ChatFinishKind::ToolCall));
    assert_eq!(history.len(), 1);
    let (first, started) = queue.next(SessionId(4), false).unwrap();
    assert_eq!(first.id, "a");
    assert!(matches!(started, SessionUpdate::ToolCallStarted { session: SessionId(4), ref call } if call.id.0 == "a"));
    assert!(queue.next(SessionId(4), true).is_none());
    assert!(queue.stopped);
    assert!(queue.next(SessionId(4), false).is_none());
    assert_eq!(queue.pending.len(), 1);
}

#[test]
fn queue_hands_out_calls_in_order() {
    let mut queue = ToolQueue { pending: vec![wire("1", "bash", "{}"), wire("2", "read_file", "{}")], stopped: false };
    assert_eq!(queue.next(SessionId(1), false).unwrap().0.id, "1");
    assert_eq!(queue.next(SessionId(1), false).unwrap().0.id, "2");
    assert!(queue.next(SessionId(1), false).is_none());
    assert!(!queue.stopped);
}
