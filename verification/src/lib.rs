//! The core of a relay that lets an automated agent put questions to one
//! designated person over a chat platform, and mirror the conversation into
//! a log thread.
//!
//! The core performs no input or output. `discord` decides what is to be
//! done on the platform and in what order; its caller does it and reports
//! back in the terms of `protocol`. `cache` keeps each thread, created at
//! most once; `text` renders what is posted; `error` names the failures.
//! `tools` and `mcp_handler` are the two tools that the agent is offered.
//! `laws` states what holds of the relay whatever it is asked and told.

pub mod cache;
pub mod discord;
pub mod error;
pub mod laws;
pub mod mcp_handler;
pub mod protocol;
pub mod text;
pub mod tools;
