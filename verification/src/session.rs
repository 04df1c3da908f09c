//! The protocol between the agent backend and its front ends: what a session
//! reports while a turn runs.

use vstd::prelude::*;

use crate::text::str_eq;

verus! {

/// Identifies one conversation with the agent.
#[derive(Debug, Clone, Copy, PartialEq, Eq, Structural, Hash)]
pub struct SessionId(pub u64);

/// Why a turn of the agent ended.
#[derive(Debug, Clone, Copy, PartialEq, Eq, Structural)]
pub enum StopReason {
    Stop,
    ToolCall,
    Cancelled,
    Error,
}

/// The identifier the model gave to one tool call.
#[derive(Debug, Clone, PartialEq, Eq, Hash)]
pub struct ToolCallId(pub String);

impl ToolCallId {
    /// Whether two identifiers hold the same text.
    pub fn same_as(&self, other: &ToolCallId) -> (res: bool)
        ensures
            res == (self.0@ == other.0@),
    {
        str_eq(self.0.as_str(), other.0.as_str())
    }

    /// An exact copy.
    pub fn duplicate(&self) -> (res: ToolCallId)
        ensures
            res == *self,
    {
        ToolCallId(self.0.clone())
    }
}

/// A tool call requested by the model: which tool, with which JSON arguments.
#[derive(Debug)]
pub struct ToolCall {
    pub id: ToolCallId,
    pub name: String,
    pub arguments: String,
}

impl ToolCall {
    /// An exact copy.
    pub fn duplicate(&self) -> (res: ToolCall)
        ensures
            res == *self,
    {
        ToolCall { id: self.id.duplicate(), name: self.name.clone(), arguments: self.arguments.clone() }
    }
}

/// Where a tool call stands.
#[derive(Debug)]
pub enum ToolStatus {
    Pending,
    Running,
    Complete { output: String },
    Failed { error: String },
}

/// One event of a running turn, reported to the front end.
#[derive(Debug)]
pub enum SessionUpdate {
    AgentMessageChunk { session: SessionId, text: String },
    ToolCallStarted { session: SessionId, call: ToolCall },
    ToolCallUpdate { session: SessionId, id: ToolCallId, status: ToolStatus },
    TurnEnd { session: SessionId, reason: StopReason },
    Failed { session: SessionId, error: String },
}

} // verus!
