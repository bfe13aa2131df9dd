//! Verified core of a desktop assistant: the conversation model, the tool
//! registry, the agent loop that drives provider round-trips and tool runs,
//! and the argument decisions of the desktop automation tools.

pub mod message;
pub mod registry;
pub mod agent;
pub mod laws;
pub mod text;
pub mod keys;
pub mod tools;
pub mod automation;
pub mod commands;
