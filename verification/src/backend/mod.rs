//! The agent backend: how model replies are accumulated and how the agent
//! loop decides what comes next.

pub mod llm;
