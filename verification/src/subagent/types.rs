//! Subagent definitions and the records of what an agent loop did.

use vstd::prelude::*;
use vstd::string::*;

use crate::text::{is_blank, is_blank_seq};

verus! {

/// One subagent definition, as loaded from `subagents/<name>.json`.
///
/// `temperature_bits` holds the IEEE-754 bit pattern of the optional sampling
/// temperature; the loop passes it on to the model without reading it.
#[derive(Debug, Clone)]
pub struct SubagentDef {
    /// Identifier, unique across the registry.
    pub name: String,
    /// One-line description, shown by `list_subagents`.
    pub description: String,
    /// System prompt.
    pub system: String,
    /// Model; `MiniMax-M3` when absent.
    pub model: Option<String>,
    /// Per-call `max_tokens`; 16384 when absent.
    pub max_tokens: Option<i32>,
    /// Sampling temperature, as the bits of an `f64`.
    pub temperature_bits: Option<u64>,
    /// Maximum number of model calls; 10 when absent.
    pub max_iterations: Option<u32>,
    /// Tool whitelist; `None` means every tool. `run_subagent` is always allowed.
    pub allowed_tools: Option<Vec<String>>,
    /// Maximum recursion depth; 3 when absent.
    pub max_depth: Option<u32>,
}

/// Which required field of a definition is blank, if any, checked in the order
/// name, description, system.
pub open spec fn validation_failure(name: Seq<char>, description: Seq<char>, system: Seq<char>) -> Option<Seq<char>> {
    if is_blank_seq(name) {
        Some("name is required"@)
    } else if is_blank_seq(description) {
        Some("description is required"@)
    } else if is_blank_seq(system) {
        Some("system is required"@)
    } else {
        None
    }
}

impl SubagentDef {
    /// Checks that the required fields are not blank (empty after trimming).
    pub fn validate(&self) -> (r: Result<(), String>)
        ensures
            r is Ok <==> validation_failure(self.name@, self.description@, self.system@) is None,
            r matches Err(m) ==> Some(m@) == validation_failure(
                self.name@,
                self.description@,
                self.system@,
            ),
    {
        if is_blank(self.name.as_str()) {
            return Err(String::from_str("name is required"));
        }
        if is_blank(self.description.as_str()) {
            return Err(String::from_str("description is required"));
        }
        if is_blank(self.system.as_str()) {
            return Err(String::from_str("system is required"));
        }
        Ok(())
    }
}

/// Lightweight summary returned by `list_subagents`.
#[derive(Debug, Clone)]
pub struct SubagentSummary {
    pub name: String,
    pub description: String,
}

/// Record of one tool invocation inside the agent loop.
#[derive(Debug, Clone)]
pub struct ToolCallRecord {
    /// 1-based iteration (each model call is one iteration).
    pub iteration: u32,
    /// Tool name as the model called it.
    pub tool: String,
    /// The subagent asked for, when the tool is `run_subagent`.
    pub subagent: Option<String>,
    /// The arguments the model passed, as JSON text.
    pub input: String,
    /// The tool's output (or error message), cut to a preview.
    pub output_preview: String,
    /// Whether the tool reported an error.
    pub is_error: bool,
}

/// What a run of the agent loop produced.
#[derive(Debug, Clone)]
pub struct LoopResult {
    pub subagent: String,
    pub final_output: String,
    pub iterations: u32,
    pub depth: u32,
    /// Every tool call in order, including recursive `run_subagent` calls.
    pub tool_calls: Vec<ToolCallRecord>,
    /// Set when the loop hit `max_iterations` without the model ending its turn.
    pub warning: Option<String>,
}

/// Result of dispatching a single tool call: what the model gets back.
#[derive(Debug, Clone)]
pub struct DispatchResult {
    pub output: String,
    pub is_error: bool,
}

} // verus!
