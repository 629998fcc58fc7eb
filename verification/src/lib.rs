//! Verified core of a MiniMax API toolkit: subagent registry and agent loop,
//! tool catalog, request defaults, response checks and result formatting.

pub mod text;
pub mod lexorder;
pub mod error;
pub mod subagent;
pub mod jsontext;
pub mod types;
pub mod mcp_params;
pub mod client;
pub mod utils;
pub mod ws;
pub mod providers;
pub mod handlers;
pub mod dispatch;
pub mod cli;
