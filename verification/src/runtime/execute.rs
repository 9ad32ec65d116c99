use vstd::prelude::*;

use crate::contracts::types::{TaskEnvelope, TaskPayload};
use crate::providers::messages::{ChatMessage, LlmResponse};
use crate::runtime::capability::ForgedMcpToolManifest;
use crate::runtime::degrade::{string_list, DegradeProfile};
use crate::runtime::guard::{guard_view, is_sandbox_policy_for, GuardDecision, RuntimeGuardReport, SandboxPolicy};
use crate::runtime::kernel::RuntimeKernel;
use crate::runtime::replay::DeterminismBoundary;
use crate::text::{concat2, concat3, copy_strings, decimal, decimal_string, starts, starts_with_str, str_equal, texts};

verus! {

/// The outcome of one governed execution.
#[derive(Debug, Clone)]
pub struct RuntimeExecuteResult {
    pub content: String,
    pub guard_report: RuntimeGuardReport,
    pub provider_response: Option<LlmResponse>,
    pub estimated_prompt_tokens: Option<u32>,
}

/// What happens to an execution's budget reservation once its guard has decided.
#[derive(Debug, Clone, Copy, PartialEq, Eq, Structural)]
pub enum BudgetAction {
    /// Settle at the cost of one tool invocation.
    Settle,
    /// Release the reservation because the guard blocked the call.
    RollbackBlocked,
    /// Release the reservation because the call waits for approval.
    RollbackApproval,
}

/// The name of a guard decision, as `Debug` prints it.
pub open spec fn decision_name(d: GuardDecision) -> Seq<char> {
    match d {
        GuardDecision::Allow => "Allow"@,
        GuardDecision::RequiresApproval => "RequiresApproval"@,
        GuardDecision::Blocked => "Blocked"@,
    }
}

impl GuardDecision {
    /// The decision's name.
    pub fn name(&self) -> (r: &'static str)
        ensures
            r@ == decision_name(*self),
    {
        match self {
            GuardDecision::Allow => "Allow",
            GuardDecision::RequiresApproval => "RequiresApproval",
            GuardDecision::Blocked => "Blocked",
        }
    }
}

/// The refusal an active degraded mode gives a capability, if any: read-only mode
/// blocks everything but provider calls, a mode without provider calls blocks them,
/// and a mode without MCP calls holds MCP capabilities for approval.
pub open spec fn degrade_refusal(p: DegradeProfile, capability_id: Seq<char>) -> Option<(GuardDecision, Seq<char>, Seq<char>)> {
    let provider = starts(capability_id, "provider:"@);
    if p.read_only_mode && !provider {
        Some((
            GuardDecision::Blocked,
            "degrade read-only mode active: "@ + p.reason@,
            "runtime is in read-only degrade profile `"@ + p.profile_id@ + "`; write/mcp execution blocked"@,
        ))
    } else if provider && !p.allow_provider_calls {
        Some((
            GuardDecision::Blocked,
            "degrade profile disabled provider calls: "@ + p.reason@,
            "provider path disabled by degrade profile `"@ + p.profile_id@ + "`"@,
        ))
    } else if starts(capability_id, "mcp::"@) && !p.allow_mcp_calls {
        Some((
            GuardDecision::RequiresApproval,
            "degrade profile disabled mcp calls: "@ + p.reason@,
            "mcp path disabled by degrade profile `"@ + p.profile_id@ + "`; waiting for recovery"@,
        ))
    } else {
        None
    }
}

/// Total UTF-8 length of the roles and contents of a transcript.
pub open spec fn transcript_bytes(messages: Seq<ChatMessage>) -> int
    decreases messages.len(),
{
    if messages.len() == 0 {
        0
    } else {
        transcript_bytes(messages.drop_last()) + (vstd::utf8::encode_utf8(messages.last().role@).len() as usize) as int
            + (vstd::utf8::encode_utf8(messages.last().content@).len() as usize) as int
    }
}

/// Estimated prompt tokens of a transcript: a quarter of its bytes, rounded up, capped
/// at `u32::MAX`.
pub open spec fn token_estimate(messages: Seq<ChatMessage>) -> u32 {
    let t = (transcript_bytes(messages) + 3) / 4;
    if t > u32::MAX {
        u32::MAX
    } else {
        t as u32
    }
}

/// The transcript a provider task sends: its messages, or its text (or JSON) as one
/// user message.
pub open spec fn payload_messages(p: TaskPayload) -> Seq<(Seq<char>, Seq<char>)> {
    match p {
        TaskPayload::Messages(v) => v@.map_values(|m: ChatMessage| m@),
        TaskPayload::Text(t) => seq![("user"@, t@)],
        TaskPayload::Json(j) => seq![("user"@, j@)],
    }
}

/// The request text a fallback reply quotes: the last user message, or `request`.
pub open spec fn last_user_text(messages: Seq<ChatMessage>) -> Seq<char>
    decreases messages.len(),
{
    if messages.len() == 0 {
        "request"@
    } else if messages.last().role@ == "user"@ {
        messages.last().content@
    } else {
        last_user_text(messages.drop_last())
    }
}

/// The reply given when the provider is unavailable.
pub open spec fn fallback_text(messages: Seq<ChatMessage>, error: Seq<char>) -> Seq<char> {
    "degraded-provider-fallback: temporarily unavailable upstream provider; partial response kept for availability. request=\""@
        + last_user_text(messages) + "\" error=\""@ + error + "\""@
}

/// How a tool call's guard decision changes once human approval and the enforcement
/// rollout are taken into account: an allowed call that needs human approval waits for it, and a refusal that
/// is not enforced is only observed.
pub open spec fn gated_decision(d: GuardDecision, reason: Seq<char>, needs_approval: bool, enforced: bool) -> (GuardDecision, Seq<char>) {
    let (d1, r1) = if needs_approval && d == GuardDecision::Allow {
        (GuardDecision::RequiresApproval, "TaskEnvelope requires human approval"@)
    } else {
        (d, reason)
    };
    if !enforced && d1 != GuardDecision::Allow {
        (GuardDecision::Allow, "shadow-observe-only (original decision "@ + decision_name(d1) + ")"@)
    } else {
        (d1, r1)
    }
}

fn guard(decision: GuardDecision, attempts: u8, timeout: u64, reason: String, breaker_key: String) -> (r: RuntimeGuardReport)
    ensures
        guard_view(r) == (decision, attempts, timeout, reason@, breaker_key@),
        r.sandbox_policy is None,
{
    RuntimeGuardReport {
        decision,
        attempts_allowed: attempts,
        timeout_secs: timeout,
        reason,
        breaker_key,
        sandbox_policy: None,
    }
}

fn byte_len(s: &String) -> (n: usize)
    ensures
        n == (vstd::utf8::encode_utf8(s@).len() as usize),
{
    s.as_str().len()
}

/// Estimated prompt tokens of a transcript.
pub fn estimate_tokens(messages: &Vec<ChatMessage>) -> (r: u32)
    ensures
        r == token_estimate(messages@),
{
    let mut total: u64 = 0;
    let mut i: usize = 0;
    while i < messages.len()
        invariant
            i <= messages@.len(),
            total == (if transcript_bytes(messages@.subrange(0, i as int)) > u64::MAX {
                u64::MAX as int
            } else {
                transcript_bytes(messages@.subrange(0, i as int))
            }),
            transcript_bytes(messages@.subrange(0, i as int)) >= 0,
        decreases messages@.len() - i,
    {
        proof {
            assert(messages@.subrange(0, i + 1).drop_last() =~= messages@.subrange(0, i as int));
        }
        let a = byte_len(&messages[i].role) as u64;
        let b = byte_len(&messages[i].content) as u64;
        let step = if a > u64::MAX - b { u64::MAX } else { a + b };
        total = if total > u64::MAX - step { u64::MAX } else { total + step };
        i = i + 1;
    }
    assert(messages@.subrange(0, messages.len() as int) =~= messages@);
    let quarter = total / 4 + (if total % 4 == 0 { 0 } else { 1 });
    if quarter > u32::MAX as u64 {
        u32::MAX
    } else {
        quarter as u32
    }
}

/// The transcript a provider task sends.
pub fn provider_messages(payload: &TaskPayload) -> (r: Vec<ChatMessage>)
    ensures
        r@.map_values(|m: ChatMessage| m@) == payload_messages(*payload),
{
    let r = match payload {
        TaskPayload::Messages(v) => crate::providers::messages::duplicate_messages(v),
        TaskPayload::Text(t) => {
            let mut r: Vec<ChatMessage> = Vec::new();
            r.push(ChatMessage::from_parts("user", t.as_str()));
            r
        },
        TaskPayload::Json(j) => {
            let mut r: Vec<ChatMessage> = Vec::new();
            r.push(ChatMessage::from_parts("user", j.as_str()));
            r
        },
    };
    assert(r@.map_values(|m: ChatMessage| m@) =~= payload_messages(*payload));
    r
}

/// The reply given when the provider is unavailable.
pub fn fallback_provider_response(messages: &Vec<ChatMessage>, error: &str) -> (r: LlmResponse)
    ensures
        r.content is Some,
        r.content->0@ == fallback_text(messages@, error@),
        r.tool_calls@.len() == 0,
{
    let mut i: usize = messages.len();
    assert(messages@.subrange(0, messages.len() as int) =~= messages@);
    while i > 0
        invariant
            i <= messages@.len(),
            last_user_text(messages@) == last_user_text(messages@.subrange(0, i as int)),
        decreases i,
    {
        let ghost prefix = messages@.subrange(0, i as int);
        proof {
            assert(prefix.drop_last() =~= messages@.subrange(0, i - 1));
        }
        if str_equal(messages[i - 1].role.as_str(), "user") {
            return fallback_with(messages[i - 1].content.as_str(), error);
        }
        i = i - 1;
    }
    fallback_with("request", error)
}

fn fallback_with(user_text: &str, error: &str) -> (r: LlmResponse)
    ensures
        r.content is Some,
        r.content->0@ == "degraded-provider-fallback: temporarily unavailable upstream provider; partial response kept for availability. request=\""@
            + user_text@ + "\" error=\""@ + error@ + "\""@,
        r.tool_calls@.len() == 0,
{
    let head = concat3(
        "degraded-provider-fallback: temporarily unavailable upstream provider; partial response kept for availability. request=\"",
        user_text,
        "\" error=\"",
    );
    LlmResponse { content: Some(concat3(head.as_str(), error, "\"")), tool_calls: Vec::new() }
}

impl RuntimeKernel {
    /// The result an active degraded mode gives a capability instead of running it,
    /// if it refuses it.
    pub fn degrade_gate(&self, profile: &DegradeProfile, capability_id: &str, timeout_ms: u64) -> (r: Option<RuntimeExecuteResult>)
        ensures
            match degrade_refusal(*profile, capability_id@) {
                None => r is None,
                Some((decision, reason, content)) => {
                    &&& r is Some
                    &&& guard_view(r->0.guard_report) == (decision, 0u8, timeout_ms / 1000, reason, "degrade:"@ + profile.profile_id@)
                    &&& r->0.guard_report.sandbox_policy is None
                    &&& r->0.content@ == content
                    &&& r->0.provider_response is None
                    &&& r->0.estimated_prompt_tokens is None
                },
            },
    {
        let provider = starts_with_str(capability_id, "provider:");
        let key = concat2("degrade:", profile.profile_id.as_str());
        let timeout = timeout_ms / 1000;
        if profile.read_only_mode && !provider {
            return Some(RuntimeExecuteResult {
                content: concat3("runtime is in read-only degrade profile `", profile.profile_id.as_str(), "`; write/mcp execution blocked"),
                guard_report: guard(GuardDecision::Blocked, 0, timeout, concat2("degrade read-only mode active: ", profile.reason.as_str()), key),
                provider_response: None,
                estimated_prompt_tokens: None,
            });
        }
        if provider && !profile.allow_provider_calls {
            return Some(RuntimeExecuteResult {
                content: concat3("provider path disabled by degrade profile `", profile.profile_id.as_str(), "`"),
                guard_report: guard(GuardDecision::Blocked, 0, timeout, concat2("degrade profile disabled provider calls: ", profile.reason.as_str()), key),
                provider_response: None,
                estimated_prompt_tokens: None,
            });
        }
        if starts_with_str(capability_id, "mcp::") && !profile.allow_mcp_calls {
            return Some(RuntimeExecuteResult {
                content: concat3("mcp path disabled by degrade profile `", profile.profile_id.as_str(), "`; waiting for recovery"),
                guard_report: guard(GuardDecision::RequiresApproval, 0, timeout, concat2("degrade profile disabled mcp calls: ", profile.reason.as_str()), key),
                provider_response: None,
                estimated_prompt_tokens: None,
            });
        }
        None
    }

    /// Refuses a provider call whose estimated prompt exceeds the task's token ceiling.
    pub fn check_provider_token_budget(&self, estimated_prompt_tokens: u32, max_tokens: u32) -> (r: Result<(), String>)
        ensures
            estimated_prompt_tokens <= max_tokens ==> r is Ok,
            estimated_prompt_tokens > max_tokens ==> r is Err && r->Err_0@ == "provider token budget exceeded: estimated="@
                + decimal(estimated_prompt_tokens as nat) + " max="@ + decimal(max_tokens as nat),
    {
        if estimated_prompt_tokens > max_tokens {
            let est = decimal_string(estimated_prompt_tokens as u64);
            let max = decimal_string(max_tokens as u64);
            let head = concat3("provider token budget exceeded: estimated=", est.as_str(), " max=");
            return Err(concat2(head.as_str(), max.as_str()));
        }
        Ok(())
    }

    /// The result of a provider call that answered.
    pub fn provider_success_result(
        &self,
        actor_id: &str,
        envelope: &TaskEnvelope,
        response: LlmResponse,
        estimated_prompt_tokens: u32,
    ) -> (r: RuntimeExecuteResult)
        ensures
            r.content@ == (match response.content {
                Some(c) => c@,
                None => Seq::empty(),
            }),
            guard_view(r.guard_report) == (
                GuardDecision::Allow,
                1u8,
                envelope.constraints.timeout_ms / 1000,
                "provider execution allowed"@,
                actor_id@ + ":"@ + envelope.capability_id@,
            ),
            r.guard_report.sandbox_policy is None,
            r.provider_response == Some(response),
            r.estimated_prompt_tokens == Some(estimated_prompt_tokens),
    {
        let content = match &response.content {
            Some(c) => c.clone(),
            None => String::new(),
        };
        RuntimeExecuteResult {
            content,
            guard_report: guard(
                GuardDecision::Allow,
                1,
                envelope.constraints.timeout_ms / 1000,
                String::from_str("provider execution allowed"),
                concat3(actor_id, ":", envelope.capability_id.as_str()),
            ),
            provider_response: Some(response),
            estimated_prompt_tokens: Some(estimated_prompt_tokens),
        }
    }

    /// The result of a provider call that failed: the degraded fallback reply.
    pub fn provider_fallback_result(
        &self,
        envelope: &TaskEnvelope,
        messages: &Vec<ChatMessage>,
        error: &str,
        estimated_prompt_tokens: u32,
    ) -> (r: RuntimeExecuteResult)
        ensures
            r.content@ == fallback_text(messages@, error@),
            guard_view(r.guard_report) == (
                GuardDecision::Allow,
                1u8,
                envelope.constraints.timeout_ms / 1000,
                "provider degraded to fallback mode"@,
                "degrade:provider:"@ + envelope.session_id@,
            ),
            r.guard_report.sandbox_policy is None,
            r.provider_response is Some,
            r.provider_response->0.content is Some,
            r.provider_response->0.content->0@ == fallback_text(messages@, error@),
            r.provider_response->0.tool_calls@.len() == 0,
            r.estimated_prompt_tokens == Some(estimated_prompt_tokens),
    {
        let fallback = fallback_provider_response(messages, error);
        let content = match &fallback.content {
            Some(c) => c.clone(),
            None => String::from_str("provider degraded fallback response"),
        };
        RuntimeExecuteResult {
            content,
            guard_report: guard(
                GuardDecision::Allow,
                1,
                envelope.constraints.timeout_ms / 1000,
                String::from_str("provider degraded to fallback mode"),
                concat2("degrade:provider:", envelope.session_id.as_str()),
            ),
            provider_response: Some(fallback),
            estimated_prompt_tokens: Some(estimated_prompt_tokens),
        }
    }

    /// The guard report once human approval and the enforcement rollout are taken into
    /// account (`enforced` as `should_enforce_gate` decides it).
    pub fn apply_gate(&self, report: RuntimeGuardReport, requires_human_approval: bool, enforced: bool) -> (r: RuntimeGuardReport)
        ensures
            (r.decision, r.reason@) == gated_decision(report.decision, report.reason@, requires_human_approval, enforced),
            r.attempts_allowed == report.attempts_allowed,
            r.timeout_secs == report.timeout_secs,
            r.breaker_key == report.breaker_key,
            r.sandbox_policy == report.sandbox_policy,
    {
        let mut guard = report;
        if requires_human_approval && guard.decision == GuardDecision::Allow {
            guard.decision = GuardDecision::RequiresApproval;
            guard.reason = String::from_str("TaskEnvelope requires human approval");
        }
        if !enforced && guard.decision != GuardDecision::Allow {
            let observed = guard.decision;
            guard.decision = GuardDecision::Allow;
            guard.reason = concat3("shadow-observe-only (original decision ", observed.name(), ")");
        }
        guard
    }

    /// What a refused tool call returns as content; `None` when the call may run.
    pub fn refusal_content(&self, guard: &RuntimeGuardReport, tool_name: &str) -> (r: Option<String>)
        ensures
            guard.decision == GuardDecision::Allow ==> r is None,
            guard.decision == GuardDecision::Blocked ==> r is Some && r->0@ == "Execution blocked by runtime guard: "@ + guard.reason@,
            guard.decision == GuardDecision::RequiresApproval ==> r is Some && r->0@
                == "Execution requires approval before running "@ + tool_name@ + ": "@ + guard.reason@,
    {
        match guard.decision {
            GuardDecision::Blocked => Some(concat2("Execution blocked by runtime guard: ", guard.reason.as_str())),
            GuardDecision::RequiresApproval => {
                let head = concat3("Execution requires approval before running ", tool_name, ": ");
                Some(concat2(head.as_str(), guard.reason.as_str()))
            },
            GuardDecision::Allow => None,
        }
    }

    /// The sandbox a tool task runs in: the capability's bounds with the task's timeout
    /// and memory ceiling, and the task's own allow and deny lists where it gives them.
    pub fn sandbox_policy_for_envelope(&self, tool_name: &str, manifest: &ForgedMcpToolManifest, envelope: &TaskEnvelope) -> (p: SandboxPolicy)
        ensures
            exists|base: SandboxPolicy| {
                &&& #[trigger] is_sandbox_policy_for(*self, tool_name@, *manifest, base)
                &&& p.filesystem_allow@ == (if envelope.constraints.io_allow_paths@.len() > 0 {
                    envelope.constraints.io_allow_paths@
                } else {
                    base.filesystem_allow@
                })
                &&& p.filesystem_deny@ == (if envelope.constraints.io_deny_paths@.len() > 0 {
                    envelope.constraints.io_deny_paths@
                } else {
                    base.filesystem_deny@
                })
            },
            p.cpu_budget_ms == envelope.constraints.timeout_ms,
            p.memory_budget_mb == envelope.constraints.max_memory_mb,
    {
        let mut policy = self.sandbox_policy_for(tool_name, manifest);
        let ghost base = policy;
        policy.cpu_budget_ms = envelope.constraints.timeout_ms;
        policy.memory_budget_mb = envelope.constraints.max_memory_mb;
        if envelope.constraints.io_allow_paths.len() > 0 {
            policy.filesystem_allow = copy_strings(&envelope.constraints.io_allow_paths);
        }
        if envelope.constraints.io_deny_paths.len() > 0 {
            policy.filesystem_deny = copy_strings(&envelope.constraints.io_deny_paths);
        }
        policy
    }

    /// The result of an MCP execution that failed: the call is paused for approval
    /// while the conservative degraded mode is active.
    pub fn mcp_failure_result(&self, envelope: &TaskEnvelope, error: &str) -> (r: RuntimeExecuteResult)
        ensures
            r.content@ == "mcp degraded mode activated due to failure; execution paused: "@ + error@,
            guard_view(r.guard_report) == (
                GuardDecision::RequiresApproval,
                0u8,
                envelope.constraints.timeout_ms / 1000,
                "mcp conservative degrade profile active"@,
                "degrade:mcp:"@ + envelope.session_id@,
            ),
            r.guard_report.sandbox_policy is None,
            r.provider_response is None,
            r.estimated_prompt_tokens is None,
    {
        RuntimeExecuteResult {
            content: concat2("mcp degraded mode activated due to failure; execution paused: ", error),
            guard_report: guard(
                GuardDecision::RequiresApproval,
                0,
                envelope.constraints.timeout_ms / 1000,
                String::from_str("mcp conservative degrade profile active"),
                concat2("degrade:mcp:", envelope.session_id.as_str()),
            ),
            provider_response: None,
            estimated_prompt_tokens: None,
        }
    }
}

/// What happens to the reservation of a tool call once its guard has decided.
pub fn budget_action_for(decision: GuardDecision) -> (r: BudgetAction)
    ensures
        decision == GuardDecision::Allow ==> r == BudgetAction::Settle,
        decision == GuardDecision::Blocked ==> r == BudgetAction::RollbackBlocked,
        decision == GuardDecision::RequiresApproval ==> r == BudgetAction::RollbackApproval,
{
    match decision {
        GuardDecision::Allow => BudgetAction::Settle,
        GuardDecision::Blocked => BudgetAction::RollbackBlocked,
        GuardDecision::RequiresApproval => BudgetAction::RollbackApproval,
    }
}

impl BudgetAction {
    /// The rollback reason recorded in the ledger, for the rollback actions.
    pub fn rollback_reason(&self) -> (r: Option<&'static str>)
        ensures
            *self == BudgetAction::Settle ==> r is None,
            *self == BudgetAction::RollbackBlocked ==> r is Some && r->0@ == "runtime_guard_blocked"@,
            *self == BudgetAction::RollbackApproval ==> r is Some && r->0@ == "requires_human_approval"@,
    {
        match self {
            BudgetAction::Settle => None,
            BudgetAction::RollbackBlocked => Some("runtime_guard_blocked"),
            BudgetAction::RollbackApproval => Some("requires_human_approval"),
        }
    }
}

/// The event stream a tool execution is recorded in.
pub fn execution_event_kind(decision: GuardDecision) -> (r: &'static str)
    ensures
        decision == GuardDecision::Blocked ==> r@ == "runtime_blocks"@,
        decision != GuardDecision::Blocked ==> r@ == "task_runs"@,
{
    if decision == GuardDecision::Blocked {
        "runtime_blocks"
    } else {
        "task_runs"
    }
}

/// The fields a replay keeps fixed for every execution.
pub open spec fn base_locked_fields() -> Seq<Seq<char>> {
    seq!["session_id"@, "trace_id"@, "task_id"@, "capability_id"@, "payload"@, "constraints"@]
}

/// What a tool execution's replay may expect to repeat: with shell access the run is
/// best effort and depends on the local shell; without it, the run is strict.
pub fn tool_determinism_boundary(allow_shell: bool) -> (b: DeterminismBoundary)
    ensures
        b.mode@ == (if allow_shell { "best_effort"@ } else { "strict"@ }),
        texts(b.locked_fields@) == base_locked_fields(),
        texts(b.non_deterministic_steps@) == (if allow_shell { seq!["sandboxed_shell_execution"@] } else { Seq::empty() }),
        texts(b.external_dependencies@) == (if allow_shell { seq!["local_shell"@] } else { Seq::empty() }),
{
    let locked = string_list(&["session_id", "trace_id", "task_id", "capability_id", "payload", "constraints"]);
    assert(texts(locked@) =~= base_locked_fields());
    if allow_shell {
        let steps = string_list(&["sandboxed_shell_execution"]);
        let deps = string_list(&["local_shell"]);
        assert(texts(steps@) =~= seq!["sandboxed_shell_execution"@]);
        assert(texts(deps@) =~= seq!["local_shell"@]);
        DeterminismBoundary { mode: String::from_str("best_effort"), locked_fields: locked, non_deterministic_steps: steps, external_dependencies: deps }
    } else {
        let b = DeterminismBoundary {
            mode: String::from_str("strict"),
            locked_fields: locked,
            non_deterministic_steps: Vec::new(),
            external_dependencies: Vec::new(),
        };
        assert(texts(b.non_deterministic_steps@) =~= Seq::<Seq<char>>::empty());
        assert(texts(b.external_dependencies@) =~= Seq::<Seq<char>>::empty());
        b
    }
}

/// What a provider execution's replay may expect to repeat: best effort, with the
/// preferred model also fixed, and the provider's reply generation depending on the
/// named provider.
pub fn provider_determinism_boundary(default_provider: &str) -> (b: DeterminismBoundary)
    ensures
        b.mode@ == "best_effort"@,
        texts(b.locked_fields@) == base_locked_fields().push("preferred_model"@),
        texts(b.non_deterministic_steps@) == seq!["provider_response_generation"@],
        texts(b.external_dependencies@) == seq![default_provider@],
{
    let locked = string_list(&["session_id", "trace_id", "task_id", "capability_id", "payload", "constraints", "preferred_model"]);
    assert(texts(locked@) =~= base_locked_fields().push("preferred_model"@));
    let steps = string_list(&["provider_response_generation"]);
    assert(texts(steps@) =~= seq!["provider_response_generation"@]);
    let mut deps: Vec<String> = Vec::new();
    deps.push(String::from_str(default_provider));
    assert(texts(deps@) =~= seq![default_provider@]);
    DeterminismBoundary { mode: String::from_str("best_effort"), locked_fields: locked, non_deterministic_steps: steps, external_dependencies: deps }
}

/// A refusal is never enforced outside the rollout, an enforced refusal keeps the
/// guard's decision, and a task that needs human approval never runs unobserved when
/// enforced.
pub proof fn law_gate_rollout(d: GuardDecision, reason: Seq<char>, needs_approval: bool, enforced: bool)
    ensures
        !enforced ==> gated_decision(d, reason, needs_approval, enforced).0 == GuardDecision::Allow,
        (enforced && d != GuardDecision::Allow) ==> gated_decision(d, reason, needs_approval, enforced).0 == d,
        (enforced && needs_approval) ==> gated_decision(d, reason, needs_approval, enforced).0 != GuardDecision::Allow,
{
}

/// A read-only degraded mode lets nothing but provider calls through.
pub proof fn law_read_only_blocks_non_provider(p: DegradeProfile, capability_id: Seq<char>)
    requires
        p.read_only_mode,
        !starts(capability_id, "provider:"@),
    ensures
        degrade_refusal(p, capability_id) matches Some((d, _, _)) && d == GuardDecision::Blocked,
{
}

} // verus!
