use vstd::prelude::*;

use crate::text::{lower, lower_str, str_equal};

verus! {

/// A task in a swarm plan.
#[derive(Debug, Clone)]
pub struct SwarmTask {
    pub task_id: String,
    pub agent_name: String,
    pub role: String,
    pub objective: String,
    pub depends_on: Vec<String>,
}

/// What one executed swarm task produced, and how it was routed and guarded.
#[derive(Debug, Clone)]
pub struct ExecutionReport {
    pub task: SwarmTask,
    pub output: String,
    pub tool_used: Option<String>,
    pub mcp_server: Option<String>,
    pub invocation_payload: Option<String>,
    pub outcome_score: i32,
    pub route_variant: String,
    pub control_score: i32,
    pub treatment_score: i32,
    pub guard_decision: String,
}

/// `s` equals `word` when ASCII case is ignored (`word` being lowercase).
pub open spec fn same_word(s: Seq<char>, word: Seq<char>) -> bool {
    lower(s) == word
}

/// ASCII-case-insensitive comparison of `s` with the lowercase word `word`.
pub fn is_word(s: &str, word: &str) -> (b: bool)
    ensures
        b == same_word(s@, word@),
{
    let l = lower_str(s);
    str_equal(l.as_str(), word)
}

/// A request to schedule an MCP tool call for a session on behalf of an actor.
#[derive(Debug, Clone)]
pub struct McpDispatchRequest {
    pub session_id: String,
    pub tool_name: String,
    pub payload: String,
    pub actor_id: String,
}

} // verus!
