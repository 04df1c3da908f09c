//! The decision logic of a terminal coding agent: the session protocol, the
//! chat transcript with its scroll state, the streaming accumulation of model
//! replies, the agent loop's turn bookkeeping and the built-in tools' results.

pub mod text;
pub mod session;
pub mod tools;
pub mod backend;
pub mod app;
pub mod ui;
pub mod cli;
pub mod config;
