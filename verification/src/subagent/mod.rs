//! Subagents: their definitions, the registry that holds them, the tools they may
//! call, and the agent loop that runs one of them.

pub mod types;
pub mod registry;
pub mod catalog;
pub mod agent_loop;
