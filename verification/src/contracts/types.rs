use vstd::prelude::*;

use crate::providers::messages::ChatMessage;

verus! {

/// Who a task runs for: tenant, principal, policy and session lease.
#[derive(Debug, Clone)]
pub struct ExecutionIdentity {
    pub tenant_id: String,
    pub principal_id: String,
    pub policy_id: String,
    pub lease_token: String,
}

/// The bounds a task must run within.
#[derive(Debug, Clone)]
pub struct ConstraintSet {
    pub max_cpu_percent: u32,
    pub max_memory_mb: u32,
    pub timeout_ms: u64,
    pub max_retries: u32,
    pub max_tokens: u32,
    pub io_allow_paths: Vec<String>,
    pub io_deny_paths: Vec<String>,
    pub sandbox_profile: String,
    pub requires_human_approval: bool,
}

/// A task's input.
#[derive(Debug, Clone)]
pub enum TaskPayload {
    /// A chat transcript for a provider call.
    Messages(Vec<ChatMessage>),
    /// Plain text (tool arguments, or a single user prompt).
    Text(String),
    /// Any other structured value, as its JSON text.
    Json(String),
}

/// A unit of governed work: what to run, for whom, on what input and within which bounds.
#[derive(Debug, Clone)]
pub struct TaskEnvelope {
    pub session_id: String,
    pub trace_id: String,
    pub task_id: String,
    pub capability_id: String,
    pub identity: ExecutionIdentity,
    pub payload: TaskPayload,
    pub constraints: ConstraintSet,
}

} // verus!
