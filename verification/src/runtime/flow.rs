//! The sequencing of one governed execution as a step function: from the stage
//! an execution is in and the event its driver reports, the next stage and the
//! next action to perform. The driver performs each action (identity lookup,
//! degrade lookup, budget precharge, provider call, guard evaluation, tool run,
//! settlement or rollback) and reports what came of it.
use vstd::prelude::*;

use crate::contracts::types::{TaskEnvelope, TaskPayload};
use crate::providers::messages::{messages_view, ChatMessage, LlmResponse};
use crate::runtime::budget::{cost_of, sat_add, BudgetReservation, PrechargeOutcome};
use crate::runtime::circuit::sat_sub;
use crate::runtime::degrade::{DegradeProfile, DegradeProfileKind};
use crate::runtime::execute::{
    degrade_refusal, estimate_tokens, fallback_text, gated_decision, payload_messages, provider_messages,
    token_estimate, RuntimeExecuteResult,
};
use crate::runtime::guard::{guard_view, GuardDecision, RuntimeGuardReport, SandboxPolicy};
use crate::runtime::kernel::{gate_enforced, RuntimeKernel};
use crate::text::{concat2, decimal, starts, starts_with_str};
use vstd::string::StringSliceAdditionalSpecFns;

verus! {

/// Where an execution stands.
#[derive(Debug)]
pub enum ExecStage {
    /// Nothing has been done yet.
    Start,
    /// Waiting for the identity check.
    CheckingIdentity,
    /// Waiting for the session's active degrade profile.
    LoadingDegrade,
    /// Waiting for the budget precharge; provider tasks carry their transcript.
    Precharging { messages: Option<Vec<ChatMessage>>, estimated_tokens: u32 },
    /// Waiting for the provider's reply.
    CallingProvider { reservation: Option<BudgetReservation>, messages: Vec<ChatMessage>, estimated_tokens: u32 },
    /// Waiting for the runtime guard's report.
    Guarding { reservation: Option<BudgetReservation> },
    /// Waiting for the tool's output.
    RunningTool { reservation: Option<BudgetReservation>, guard: RuntimeGuardReport },
    /// The last action ends the execution.
    Done,
}

/// What the driver reports.
#[derive(Debug)]
pub enum ExecEvent {
    /// The execution is asked for.
    Started,
    /// The identity check passed or failed.
    IdentityChecked(Result<(), String>),
    /// The session's active degrade profile, if any.
    DegradeLoaded(Option<DegradeProfile>),
    /// The precharge: refused, not enforced (`None`), or reserved.
    Precharged(Result<Option<BudgetReservation>, String>),
    /// The provider answered or failed.
    ProviderReplied(Result<LlmResponse, String>),
    /// What the guard decided, with its breaker state.
    GuardEvaluated { guard: RuntimeGuardReport },
    /// The tool's output or failure, and the sandbox policy it ran under, if any.
    ToolFinished { output: Result<String, String>, sandbox_policy: Option<SandboxPolicy> },
}

/// What the driver does next.
#[derive(Debug)]
pub enum ExecAction {
    /// Check the envelope's identity.
    ValidateIdentity,
    /// Load the session's active degrade profile.
    LoadDegradeProfile,
    /// Precharge the budget for this many tokens.
    Precharge { estimated_tokens: u32 },
    /// Send this transcript to the provider.
    CallProvider { messages: Vec<ChatMessage> },
    /// Evaluate the runtime guard with its breaker state.
    EvaluateGuard,
    /// Run the tool under this guard report.
    RunTool { guard: RuntimeGuardReport },
    /// Settle the reservation at this usage, then return the result.
    Settle { reservation: BudgetReservation, provider_tokens: u32, tool_invocations: u32, result: RuntimeExecuteResult },
    /// Release the reservation, apply the degrade profile if any, then return the outcome.
    Rollback {
        reservation: BudgetReservation,
        reason: String,
        degrade: Option<(DegradeProfileKind, String)>,
        outcome: Result<RuntimeExecuteResult, String>,
    },
    /// Apply the degrade profile if any, then return the outcome.
    Finish { degrade: Option<(DegradeProfileKind, String)>, outcome: Result<RuntimeExecuteResult, String> },
}

/// The reservation a stage holds.
pub open spec fn held(s: ExecStage) -> Option<BudgetReservation> {
    match s {
        ExecStage::CallingProvider { reservation, .. } => reservation,
        ExecStage::Guarding { reservation } => reservation,
        ExecStage::RunningTool { reservation, .. } => reservation,
        _ => None,
    }
}

/// The reservation a step has to account for: the one the stage holds, or the
/// one the precharge just made.
pub open spec fn in_play(s: ExecStage, e: ExecEvent) -> Option<BudgetReservation> {
    match (s, e) {
        (ExecStage::Precharging { .. }, ExecEvent::Precharged(Ok(Some(r)))) => Some(r),
        (s, _) => held(s),
    }
}

/// The action ends the execution.
pub open spec fn ends(a: ExecAction) -> bool {
    a is Settle || a is Rollback || a is Finish
}

/// A provider capability.
pub open spec fn provider_task(env: TaskEnvelope) -> bool {
    starts(env.capability_id@, "provider:"@)
}

/// An MCP capability.
pub open spec fn mcp_task(env: TaskEnvelope) -> bool {
    starts(env.capability_id@, "mcp::"@)
}

/// The precharge token estimate of a task that is not a provider call: a quarter
/// of its payload text's bytes (truncated to 32 bits), at least one.
pub open spec fn tool_precharge_tokens(p: TaskPayload, transcript_estimate: u32) -> u32 {
    match p {
        TaskPayload::Text(t) => {
            let q = (vstd::utf8::encode_utf8(t@).len() as u32) / 4;
            if q < 1 { 1 } else { q }
        },
        TaskPayload::Json(j) => {
            let q = (vstd::utf8::encode_utf8(j@).len() as u32) / 4;
            if q < 1 { 1 } else { q }
        },
        TaskPayload::Messages(_) => transcript_estimate,
    }
}

/// The outcome an ending action returns.
pub open spec fn outcome_of(a: ExecAction) -> Option<Result<RuntimeExecuteResult, String>> {
    match a {
        ExecAction::Settle { result, .. } => Some(Ok(result)),
        ExecAction::Rollback { outcome, .. } => Some(outcome),
        ExecAction::Finish { outcome, .. } => Some(outcome),
        _ => None,
    }
}

/// The degrade profile an ending action applies, with its reason.
pub open spec fn degrade_of(a: ExecAction) -> Option<(DegradeProfileKind, Seq<char>)> {
    match a {
        ExecAction::Rollback { degrade: Some((k, why)), .. } => Some((k, why@)),
        ExecAction::Finish { degrade: Some((k, why)), .. } => Some((k, why@)),
        _ => None,
    }
}

/// The result an ending action returns, when it returns one.
pub open spec fn result_of(a: ExecAction) -> RuntimeExecuteResult
    recommends
        outcome_of(a) matches Some(Ok(_)),
{
    outcome_of(a)->Some_0->Ok_0
}

/// The execution ends by settling `res` at this usage (or, without a
/// reservation, by finishing) and returns a result.
pub open spec fn settled(res: Option<BudgetReservation>, a: ExecAction, provider_tokens: u32, tool_invocations: u32) -> bool {
    &&& match res {
        Some(x) => a is Settle && a->Settle_reservation == x && a->Settle_provider_tokens == provider_tokens
            && a->Settle_tool_invocations == tool_invocations,
        None => a is Finish,
    }
    &&& outcome_of(a) matches Some(Ok(_))
    &&& degrade_of(a) is None
}

/// The execution ends by rolling `res` back for `reason` (or, without a
/// reservation, by finishing).
pub open spec fn released(res: Option<BudgetReservation>, a: ExecAction, reason: Seq<char>) -> bool {
    match res {
        Some(x) => a is Rollback && a->Rollback_reservation == x && a->Rollback_reason@ == reason,
        None => a is Finish,
    }
}

/// The result of a provider call that answered.
pub open spec fn provider_result(r: RuntimeExecuteResult, actor_id: Seq<char>, env: TaskEnvelope, resp: LlmResponse, est: u32) -> bool {
    &&& r.content@ == (match resp.content {
        Some(c) => c@,
        None => Seq::empty(),
    })
    &&& guard_view(r.guard_report) == (
        GuardDecision::Allow,
        1u8,
        env.constraints.timeout_ms / 1000,
        "provider execution allowed"@,
        actor_id + ":"@ + env.capability_id@,
    )
    &&& r.guard_report.sandbox_policy is None
    &&& r.provider_response == Some(resp)
    &&& r.estimated_prompt_tokens == Some(est)
}

/// The degraded reply of a provider call that failed.
pub open spec fn fallback_result(r: RuntimeExecuteResult, env: TaskEnvelope, messages: Seq<ChatMessage>, error: Seq<char>, est: u32) -> bool {
    &&& r.content@ == fallback_text(messages, error)
    &&& guard_view(r.guard_report) == (
        GuardDecision::Allow,
        1u8,
        env.constraints.timeout_ms / 1000,
        "provider degraded to fallback mode"@,
        "degrade:provider:"@ + env.session_id@,
    )
    &&& r.guard_report.sandbox_policy is None
    &&& r.provider_response is Some
    &&& r.provider_response->0.content is Some
    &&& r.provider_response->0.content->0@ == fallback_text(messages, error)
    &&& r.provider_response->0.tool_calls@.len() == 0
    &&& r.estimated_prompt_tokens == Some(est)
}

/// The result of an MCP tool that failed: the conservative degrade notice.
pub open spec fn mcp_failure(r: RuntimeExecuteResult, env: TaskEnvelope, error: Seq<char>) -> bool {
    &&& r.content@ == "mcp degraded mode activated due to failure; execution paused: "@ + error
    &&& guard_view(r.guard_report) == (
        GuardDecision::RequiresApproval,
        0u8,
        env.constraints.timeout_ms / 1000,
        "mcp conservative degrade profile active"@,
        "degrade:mcp:"@ + env.session_id@,
    )
    &&& r.guard_report.sandbox_policy is None
    &&& r.provider_response is None
    &&& r.estimated_prompt_tokens is None
}

/// The guard report `g` after gating: the gated decision and reason, the rest
/// unchanged.
pub open spec fn gated_report(r: RuntimeGuardReport, g: RuntimeGuardReport, gated: (GuardDecision, Seq<char>)) -> bool {
    &&& r.decision == gated.0
    &&& r.reason@ == gated.1
    &&& r.attempts_allowed == g.attempts_allowed
    &&& r.timeout_secs == g.timeout_secs
    &&& r.breaker_key == g.breaker_key
    &&& r.sandbox_policy == g.sandbox_policy
}

/// The result that reports a refusal under the gated report.
pub open spec fn refusal(r: RuntimeExecuteResult, g: RuntimeGuardReport, gated: (GuardDecision, Seq<char>), tool: Seq<char>) -> bool {
    &&& gated_report(r.guard_report, g, gated)
    &&& r.provider_response is None
    &&& r.estimated_prompt_tokens is None
    &&& r.content@ == (if gated.0 == GuardDecision::Blocked {
        "Execution blocked by runtime guard: "@ + gated.1
    } else {
        "Execution requires approval before running "@ + tool + ": "@ + gated.1
    })
}

/// A tool's output under its guard report, with the sandbox policy it ran
/// under when it reports one.
pub open spec fn tool_output(r: RuntimeExecuteResult, g: RuntimeGuardReport, out: String, policy: Option<SandboxPolicy>) -> bool {
    &&& r.content == out
    &&& r.guard_report.decision == g.decision
    &&& r.guard_report.reason == g.reason
    &&& r.guard_report.attempts_allowed == g.attempts_allowed
    &&& r.guard_report.timeout_secs == g.timeout_secs
    &&& r.guard_report.breaker_key == g.breaker_key
    &&& r.guard_report.sandbox_policy == (match policy {
        Some(p) => Some(p),
        None => g.sandbox_policy,
    })
    &&& r.provider_response is None
    &&& r.estimated_prompt_tokens is None
}

/// The decision and reason a task gets from a guard report, with human
/// approval and enforcement taken into account.
pub open spec fn gated_for(k: RuntimeKernel, env: TaskEnvelope, g: RuntimeGuardReport) -> (GuardDecision, Seq<char>) {
    gated_decision(
        g.decision,
        g.reason@,
        env.constraints.requires_human_approval,
        gate_enforced(k, env.session_id@, env.task_id@),
    )
}

/// Once a reservation is in play the execution ends only by settling it or
/// rolling it back; otherwise it carries it on unchanged. Without one, no
/// settlement or rollback is asked for.
pub open spec fn reservation_accounted(s: ExecStage, e: ExecEvent, next: ExecStage, a: ExecAction) -> bool {
    match in_play(s, e) {
        Some(res) => {
            ||| (held(next) == Some(res) && !ends(a))
            ||| (next is Done && a is Settle && a->Settle_reservation == res)
            ||| (next is Done && a is Rollback && a->Rollback_reservation == res)
        },
        None => held(next) is None && !(a is Settle) && !(a is Rollback),
    }
}

/// The identity is checked before anything else, and only a passed check leads
/// on to the degrade lookup.
pub open spec fn identity_first(s: ExecStage, e: ExecEvent, next: ExecStage, a: ExecAction) -> bool {
    &&& (a is ValidateIdentity) == (s is Start && e is Started)
    &&& (s is Start && e is Started) ==> next is CheckingIdentity
    &&& (s is Start && !(e is Started)) ==> (a is Finish && a->Finish_outcome is Err)
    &&& a is LoadDegradeProfile ==> (s is CheckingIdentity && e is IdentityChecked && e->IdentityChecked_0 is Ok)
    &&& (s is CheckingIdentity && e is IdentityChecked && e->IdentityChecked_0 is Ok) ==> (next is LoadingDegrade
        && a is LoadDegradeProfile)
    &&& (s is CheckingIdentity && e is IdentityChecked && e->IdentityChecked_0 is Err) ==> (a is Finish
        && a->Finish_degrade is None && a->Finish_outcome == Err::<RuntimeExecuteResult, String>(
        e->IdentityChecked_0->Err_0,
    ))
}

/// The precharge asks for the transcript's token estimate (provider tasks) or a
/// quarter of the payload's bytes (other tasks); a refused precharge ends the
/// execution with its error.
pub open spec fn precharge_step(env: TaskEnvelope, s: ExecStage, e: ExecEvent, next: ExecStage, a: ExecAction) -> bool {
    &&& a is Precharge ==> {
        let t = a->Precharge_estimated_tokens;
        &&& s is LoadingDegrade
        &&& next is Precharging
        &&& next->Precharging_estimated_tokens == t
        &&& provider_task(env) == next->Precharging_messages is Some
        &&& next->Precharging_messages is Some ==> {
            let ms = next->Precharging_messages->Some_0;
            &&& messages_view(ms@) == payload_messages(env.payload)
            &&& t == token_estimate(ms@)
        }
        &&& !provider_task(env) ==> (exists|ms: Seq<ChatMessage>|
            messages_view(ms) == payload_messages(env.payload) && t == tool_precharge_tokens(env.payload, #[trigger] token_estimate(ms)))
    }
    &&& (s is Precharging && e is Precharged && e->Precharged_0 is Err) ==> (a is Finish && a->Finish_degrade is None
        && a->Finish_outcome == Err::<RuntimeExecuteResult, String>(e->Precharged_0->Err_0))
}

/// The provider is called only after the precharge, within the token budget.
pub open spec fn call_gate(env: TaskEnvelope, s: ExecStage, e: ExecEvent, a: ExecAction) -> bool {
    a is CallProvider ==> {
        &&& provider_task(env)
        &&& s is Precharging
        &&& s->Precharging_messages is Some
        &&& a->CallProvider_messages@ == s->Precharging_messages->Some_0@
        &&& s->Precharging_estimated_tokens <= env.constraints.max_tokens
        &&& e is Precharged
        &&& e->Precharged_0 is Ok
    }
}

/// An active degrade profile that refuses the task ends it with the refusal,
/// before any precharge; otherwise the budget is precharged.
pub open spec fn degrade_step(env: TaskEnvelope, s: ExecStage, e: ExecEvent, next: ExecStage, a: ExecAction) -> bool {
    (s is LoadingDegrade && e is DegradeLoaded) ==> match e->DegradeLoaded_0 {
        Some(p) => match degrade_refusal(p, env.capability_id@) {
            Some(refused) => {
                &&& next is Done
                &&& a is Finish
                &&& a->Finish_degrade is None
                &&& a->Finish_outcome is Ok
                &&& {
                    let r = a->Finish_outcome->Ok_0;
                    &&& guard_view(r.guard_report) == (
                        refused.0,
                        0u8,
                        env.constraints.timeout_ms / 1000,
                        refused.1,
                        "degrade:"@ + p.profile_id@,
                    )
                    &&& r.guard_report.sandbox_policy is None
                    &&& r.content@ == refused.2
                    &&& r.provider_response is None
                    &&& r.estimated_prompt_tokens is None
                }
            },
            None => next is Precharging && a is Precharge,
        },
        None => next is Precharging && a is Precharge,
    }
}

/// After a precharge a provider task within its token budget calls the
/// provider with its transcript; over the budget it releases the reservation
/// and fails with the budget error.
pub open spec fn provider_call_owed(env: TaskEnvelope, s: ExecStage, e: ExecEvent, next: ExecStage, a: ExecAction) -> bool {
    (provider_task(env) && s is Precharging && s->Precharging_messages is Some && e is Precharged && e->Precharged_0 is Ok) ==> {
        let res = e->Precharged_0->Ok_0;
        let ms = s->Precharging_messages->Some_0;
        let est = s->Precharging_estimated_tokens;
        let max = env.constraints.max_tokens;
        if est <= max {
            &&& next == ExecStage::CallingProvider { reservation: res, messages: ms, estimated_tokens: est }
            &&& a is CallProvider
            &&& a->CallProvider_messages@ == ms@
        } else {
            &&& next is Done
            &&& released(res, a, "provider_token_budget_exceeded"@)
            &&& degrade_of(a) is None
            &&& outcome_of(a) matches Some(Err(m))
            &&& outcome_of(a)->Some_0->Err_0@ == "provider token budget exceeded: estimated="@ + decimal(est as nat) + " max="@
                + decimal(max as nat)
        }
    }
}

/// After a precharge any other task has its guard evaluated.
pub open spec fn guard_owed(env: TaskEnvelope, s: ExecStage, e: ExecEvent, next: ExecStage, a: ExecAction) -> bool {
    (!provider_task(env) && s is Precharging && s->Precharging_messages is None && e is Precharged && e->Precharged_0 is Ok)
        ==> (next == ExecStage::Guarding { reservation: e->Precharged_0->Ok_0 } && a is EvaluateGuard)
}

/// The guard is evaluated only for tasks that are not provider calls, after the
/// precharge; a tool runs only when the gated guard decision allows it.
pub open spec fn tool_gate(k: RuntimeKernel, env: TaskEnvelope, s: ExecStage, e: ExecEvent, a: ExecAction) -> bool {
    &&& a is EvaluateGuard ==> (!provider_task(env) && s is Precharging && e is Precharged && e->Precharged_0 is Ok)
    &&& a is RunTool ==> (s is Guarding && e is GuardEvaluated && gated_for(k, env, e->GuardEvaluated_guard).0
        == GuardDecision::Allow)
}

/// With the gated decision allowing it the tool runs under the gated report (in
/// shadow rollout a refusal is only observed and the tool runs); otherwise the
/// reservation is released and the refusal is reported under the gated report.
pub open spec fn guard_step(k: RuntimeKernel, env: TaskEnvelope, s: ExecStage, e: ExecEvent, next: ExecStage, a: ExecAction) -> bool {
    (s is Guarding && e is GuardEvaluated) ==> {
        let g = e->GuardEvaluated_guard;
        let gated = gated_for(k, env, g);
        if gated.0 == GuardDecision::Allow {
            &&& next is RunningTool
            &&& next->RunningTool_reservation == s->Guarding_reservation
            &&& gated_report(next->RunningTool_guard, g, gated)
            &&& a is RunTool
            &&& a->RunTool_guard.decision == GuardDecision::Allow
            &&& a->RunTool_guard.reason@ == gated.1
            &&& a->RunTool_guard.attempts_allowed == g.attempts_allowed
            &&& a->RunTool_guard.timeout_secs == g.timeout_secs
            &&& a->RunTool_guard.breaker_key == g.breaker_key
        } else {
            &&& next is Done
            &&& released(
                s->Guarding_reservation,
                a,
                if gated.0 == GuardDecision::Blocked { "runtime_guard_blocked"@ } else { "requires_human_approval"@ },
            )
            &&& degrade_of(a) is None
            &&& outcome_of(a) matches Some(Ok(_))
            &&& refusal(result_of(a), g, gated, env.capability_id@)
        }
    }
}

/// A provider reply settles at the estimated tokens and returns the reply; a
/// provider failure rolls back, switches to the provider-fallback profile and
/// answers with the fallback.
pub open spec fn provider_reply(actor_id: Seq<char>, env: TaskEnvelope, s: ExecStage, e: ExecEvent, next: ExecStage, a: ExecAction) -> bool {
    (s is CallingProvider && e is ProviderReplied) ==> {
        let res = s->CallingProvider_reservation;
        let est = s->CallingProvider_estimated_tokens;
        &&& next is Done
        &&& match e->ProviderReplied_0 {
            Ok(resp) => settled(res, a, est, 0) && provider_result(result_of(a), actor_id, env, resp, est),
            Err(err) => {
                &&& released(res, a, "provider_execution_error"@)
                &&& degrade_of(a) == Some((DegradeProfileKind::ProviderFallback, "provider unavailable: "@ + err@))
                &&& outcome_of(a) matches Some(Ok(_))
                &&& fallback_result(result_of(a), env, s->CallingProvider_messages@, err@, est)
            },
        }
    }
}

/// A tool's output settles one invocation and is returned under its guard
/// report; a failure rolls back, an MCP task switching to the conservative
/// profile with its notice, any other failing with the tool's error.
pub open spec fn tool_result(env: TaskEnvelope, s: ExecStage, e: ExecEvent, next: ExecStage, a: ExecAction) -> bool {
    (s is RunningTool && e is ToolFinished) ==> {
        let res = s->RunningTool_reservation;
        &&& next is Done
        &&& match e->ToolFinished_output {
            Ok(out) => settled(res, a, 0, 1) && tool_output(
                result_of(a),
                s->RunningTool_guard,
                out,
                e->ToolFinished_sandbox_policy,
            ),
            Err(err) => if mcp_task(env) {
                &&& released(res, a, "mcp_execution_error"@)
                &&& degrade_of(a) == Some((DegradeProfileKind::McpConservative, "mcp execution failed: "@ + err@))
                &&& outcome_of(a) matches Some(Ok(_))
                &&& mcp_failure(result_of(a), env, err@)
            } else {
                &&& released(res, a, "execution_error"@)
                &&& degrade_of(a) is None
                &&& outcome_of(a) == Some(Err::<RuntimeExecuteResult, String>(err))
            },
        }
    }
}

fn copy_report(g: &RuntimeGuardReport) -> (c: RuntimeGuardReport)
    ensures
        c.decision == g.decision,
        c.reason == g.reason,
        c.attempts_allowed == g.attempts_allowed,
        c.timeout_secs == g.timeout_secs,
        c.breaker_key == g.breaker_key,
{
    RuntimeGuardReport {
        decision: g.decision,
        attempts_allowed: g.attempts_allowed,
        timeout_secs: g.timeout_secs,
        reason: g.reason.clone(),
        breaker_key: g.breaker_key.clone(),
        sandbox_policy: g.sandbox_policy.clone(),
    }
}

fn payload_text_tokens(text: &String) -> (r: u32)
    ensures
        r == ({
            let q = (vstd::utf8::encode_utf8(text@).len() as u32) / 4;
            if q < 1 { 1u32 } else { q }
        }),
{
    let n = text.as_str().as_bytes().len();
    let q = (n as u32) / 4;
    if q < 1 { 1 } else { q }
}

fn out_of_order(stage: ExecStage) -> (r: (ExecStage, ExecAction))
    ensures
        r.0 is Done,
        match held(stage) {
            Some(res) => r.1 matches ExecAction::Rollback { reservation, outcome, .. } && reservation == res && outcome is Err,
            None => r.1 matches ExecAction::Finish { outcome, .. } && outcome is Err,
        },
{
    let reservation = match stage {
        ExecStage::CallingProvider { reservation, .. } => reservation,
        ExecStage::Guarding { reservation } => reservation,
        ExecStage::RunningTool { reservation, .. } => reservation,
        _ => None,
    };
    let outcome = Err(String::from_str("execution step out of order"));
    match reservation {
        Some(res) => (
            ExecStage::Done,
            ExecAction::Rollback { reservation: res, reason: String::from_str("execution_error"), degrade: None, outcome },
        ),
        None => (ExecStage::Done, ExecAction::Finish { degrade: None, outcome }),
    }
}

/// Ends with `result`: through a settlement when a reservation is held.
fn settle_or_finish(reservation: Option<BudgetReservation>, provider_tokens: u32, tool_invocations: u32, result: RuntimeExecuteResult) -> (r: (ExecStage, ExecAction))
    ensures
        r.0 is Done,
        match reservation {
            Some(res) => r.1 == ExecAction::Settle { reservation: res, provider_tokens, tool_invocations, result },
            None => r.1 == ExecAction::Finish { degrade: None, outcome: Ok(result) },
        },
{
    match reservation {
        Some(res) => (ExecStage::Done, ExecAction::Settle { reservation: res, provider_tokens, tool_invocations, result }),
        None => (ExecStage::Done, ExecAction::Finish { degrade: None, outcome: Ok(result) }),
    }
}

/// Ends with `outcome`: through a rollback when a reservation is held.
fn rollback_or_finish(
    reservation: Option<BudgetReservation>,
    reason: &str,
    degrade: Option<(DegradeProfileKind, String)>,
    outcome: Result<RuntimeExecuteResult, String>,
) -> (r: (ExecStage, ExecAction))
    ensures
        r.0 is Done,
        match reservation {
            Some(res) => r.1 matches ExecAction::Rollback { reservation: rr, reason: why, degrade: d, outcome: o } && rr == res
                && why@ == reason@ && d == degrade && o == outcome,
            None => r.1 == ExecAction::Finish { degrade, outcome },
        },
{
    match reservation {
        Some(res) => (ExecStage::Done, ExecAction::Rollback { reservation: res, reason: String::from_str(reason), degrade, outcome }),
        None => (ExecStage::Done, ExecAction::Finish { degrade, outcome }),
    }
}

impl RuntimeKernel {
    /// One step of an execution of `envelope` on behalf of `actor_id`.
    ///
    /// The identity is checked first; an active degrade profile may refuse the
    /// task; the budget is precharged; a provider task checks its token budget and
    /// calls the provider; any other task is guarded (with the approval and
    /// rollout gate) and runs only when the gated decision allows it. Once a
    /// reservation is made, the execution ends only by settling it (on success)
    /// or rolling it back (on refusal or failure).
    #[verifier::rlimit(40)]
    pub fn execute_step(&self, actor_id: &str, envelope: &TaskEnvelope, stage: ExecStage, event: ExecEvent) -> (r: (
        ExecStage,
        ExecAction,
    ))
        ensures
            reservation_accounted(stage, event, r.0, r.1),
            ends(r.1) <==> r.0 is Done,
            identity_first(stage, event, r.0, r.1),
            degrade_step(*envelope, stage, event, r.0, r.1),
            precharge_step(*envelope, stage, event, r.0, r.1),
            provider_call_owed(*envelope, stage, event, r.0, r.1),
            call_gate(*envelope, stage, event, r.1),
            guard_owed(*envelope, stage, event, r.0, r.1),
            tool_gate(*self, *envelope, stage, event, r.1),
            guard_step(*self, *envelope, stage, event, r.0, r.1),
            provider_reply(actor_id@, *envelope, stage, event, r.0, r.1),
            tool_result(*envelope, stage, event, r.0, r.1),
            stage is Done ==> (r.0 is Done && r.1 is Finish && r.1->Finish_outcome is Err),
    {
        match stage {
            ExecStage::Start => match event {
                ExecEvent::Started => (ExecStage::CheckingIdentity, ExecAction::ValidateIdentity),
                _ => out_of_order(ExecStage::Start),
            },
            ExecStage::CheckingIdentity => match event {
                ExecEvent::IdentityChecked(Ok(())) => (ExecStage::LoadingDegrade, ExecAction::LoadDegradeProfile),
                ExecEvent::IdentityChecked(Err(e)) => (ExecStage::Done, ExecAction::Finish { degrade: None, outcome: Err(e) }),
                _ => out_of_order(ExecStage::CheckingIdentity),
            },
            ExecStage::LoadingDegrade => match event {
                ExecEvent::DegradeLoaded(profile) => {
                    if let Some(p) = &profile {
                        if let Some(refused) = self.degrade_gate(p, envelope.capability_id.as_str(), envelope.constraints.timeout_ms) {
                            return (ExecStage::Done, ExecAction::Finish { degrade: None, outcome: Ok(refused) });
                        }
                    }
                    let messages = provider_messages(&envelope.payload);
                    let transcript = estimate_tokens(&messages);
                    if starts_with_str(envelope.capability_id.as_str(), "provider:") {
                        (
                            ExecStage::Precharging { messages: Some(messages), estimated_tokens: transcript },
                            ExecAction::Precharge { estimated_tokens: transcript },
                        )
                    } else {
                        let estimated = match &envelope.payload {
                            TaskPayload::Text(t) => payload_text_tokens(t),
                            TaskPayload::Json(j) => payload_text_tokens(j),
                            TaskPayload::Messages(_) => transcript,
                        };
                        (
                            ExecStage::Precharging { messages: None, estimated_tokens: estimated },
                            ExecAction::Precharge { estimated_tokens: estimated },
                        )
                    }
                },
                _ => out_of_order(ExecStage::LoadingDegrade),
            },
            ExecStage::Precharging { messages, estimated_tokens } => match event {
                ExecEvent::Precharged(Err(e)) => (ExecStage::Done, ExecAction::Finish { degrade: None, outcome: Err(e) }),
                ExecEvent::Precharged(Ok(reservation)) => match messages {
                    None if starts_with_str(envelope.capability_id.as_str(), "provider:") => rollback_or_finish(
                        reservation,
                        "execution_error",
                        None,
                        Err(String::from_str("execution step out of order")),
                    ),
                    Some(_) if !starts_with_str(envelope.capability_id.as_str(), "provider:") => (
                        ExecStage::Guarding { reservation },
                        ExecAction::EvaluateGuard,
                    ),
                    Some(ms) => {
                        match self.check_provider_token_budget(estimated_tokens, envelope.constraints.max_tokens) {
                            Err(e) => rollback_or_finish(reservation, "provider_token_budget_exceeded", None, Err(e)),
                            Ok(()) => {
                                let sent = crate::providers::messages::duplicate_messages(&ms);
                                (
                                    ExecStage::CallingProvider { reservation, messages: ms, estimated_tokens },
                                    ExecAction::CallProvider { messages: sent },
                                )
                            },
                        }
                    },
                    None => (ExecStage::Guarding { reservation }, ExecAction::EvaluateGuard),
                },
                _ => out_of_order(ExecStage::Precharging { messages, estimated_tokens }),
            },
            ExecStage::CallingProvider { reservation, messages, estimated_tokens } => match event {
                ExecEvent::ProviderReplied(Ok(response)) => {
                    let result = self.provider_success_result(actor_id, envelope, response, estimated_tokens);
                    settle_or_finish(reservation, estimated_tokens, 0, result)
                },
                ExecEvent::ProviderReplied(Err(e)) => {
                    let fallback = self.provider_fallback_result(envelope, &messages, e.as_str(), estimated_tokens);
                    let why = concat2("provider unavailable: ", e.as_str());
                    rollback_or_finish(
                        reservation,
                        "provider_execution_error",
                        Some((DegradeProfileKind::ProviderFallback, why)),
                        Ok(fallback),
                    )
                },
                _ => out_of_order(ExecStage::CallingProvider { reservation, messages, estimated_tokens }),
            },
            ExecStage::Guarding { reservation } => match event {
                ExecEvent::GuardEvaluated { guard } => {
                    let enforced = self.should_enforce_gate(envelope.session_id.as_str(), envelope.task_id.as_str());
                    let gated = self.apply_gate(guard, envelope.constraints.requires_human_approval, enforced);
                    if gated.decision == GuardDecision::Allow {
                        let copy = copy_report(&gated);
                        (ExecStage::RunningTool { reservation, guard: gated }, ExecAction::RunTool { guard: copy })
                    } else {
                        let content = match self.refusal_content(&gated, envelope.capability_id.as_str()) {
                            Some(c) => c,
                            None => String::new(),
                        };
                        let reason = if gated.decision == GuardDecision::Blocked {
                            "runtime_guard_blocked"
                        } else {
                            "requires_human_approval"
                        };
                        let result = RuntimeExecuteResult {
                            content,
                            guard_report: gated,
                            provider_response: None,
                            estimated_prompt_tokens: None,
                        };
                        rollback_or_finish(reservation, reason, None, Ok(result))
                    }
                },
                _ => out_of_order(ExecStage::Guarding { reservation }),
            },
            ExecStage::RunningTool { reservation, guard } => match event {
                ExecEvent::ToolFinished { output: Ok(content), sandbox_policy } => {
                    let mut report = guard;
                    if let Some(p) = sandbox_policy {
                        report.sandbox_policy = Some(p);
                    }
                    let result = RuntimeExecuteResult {
                        content,
                        guard_report: report,
                        provider_response: None,
                        estimated_prompt_tokens: None,
                    };
                    settle_or_finish(reservation, 0, 1, result)
                },
                ExecEvent::ToolFinished { output: Err(e), .. } => {
                    if starts_with_str(envelope.capability_id.as_str(), "mcp::") {
                        let result = self.mcp_failure_result(envelope, e.as_str());
                        let why = concat2("mcp execution failed: ", e.as_str());
                        rollback_or_finish(
                            reservation,
                            "mcp_execution_error",
                            Some((DegradeProfileKind::McpConservative, why)),
                            Ok(result),
                        )
                    } else {
                        rollback_or_finish(reservation, "execution_error", None, Err(e))
                    }
                },
                _ => out_of_order(ExecStage::RunningTool { reservation, guard }),
            },
            ExecStage::Done => out_of_order(ExecStage::Done),
        }
    }
}

/// What a precharge reports to the execution: no reservation when the budget is
/// not enforced, the reservation, or the refusal `budget precharge exceeded`.
pub fn precharge_event(outcome: PrechargeOutcome) -> (r: Result<Option<BudgetReservation>, String>)
    ensures
        match outcome {
            PrechargeOutcome::NotEnforced => r == Ok::<Option<BudgetReservation>, String>(None),
            PrechargeOutcome::Blocked { .. } => r is Err && r->Err_0@ == "budget precharge exceeded"@,
            PrechargeOutcome::Reserved { reservation, .. } => r == Ok::<Option<BudgetReservation>, String>(Some(reservation)),
        },
{
    match outcome {
        PrechargeOutcome::NotEnforced => Ok(None),
        PrechargeOutcome::Blocked { .. } => Err(String::from_str("budget precharge exceeded")),
        PrechargeOutcome::Reserved { reservation, .. } => Ok(Some(reservation)),
    }
}

/// One step of an execution: the stage, the event, the next stage and the action.
pub type ExecStepView = (ExecStage, ExecEvent, ExecStage, ExecAction);

/// The steps follow on from each other, each accounts for its reservation, and
/// only the last one ends the execution.
pub open spec fn accounted_run(steps: Seq<ExecStepView>) -> bool {
    &&& forall|i: int| 0 <= i < steps.len() - 1 ==> (#[trigger] steps[i]).2 == steps[i + 1].0
    &&& forall|i: int| 0 <= i < steps.len() ==> reservation_accounted(
        (#[trigger] steps[i]).0,
        steps[i].1,
        steps[i].2,
        steps[i].3,
    )
    &&& forall|i: int| 0 <= i < steps.len() - 1 ==> !ends((#[trigger] steps[i]).3)
}

/// Once a step of an execution puts a reservation in play, the execution ends
/// by settling or rolling back that very reservation.
pub proof fn law_reservation_settled_or_rolled_back(steps: Seq<ExecStepView>, k: int, res: BudgetReservation)
    requires
        accounted_run(steps),
        0 <= k < steps.len(),
        in_play(steps[k].0, steps[k].1) == Some(res),
        ends(steps.last().3),
    ensures
        ({
            let a = steps.last().3;
            (a is Settle && a->Settle_reservation == res) || (a is Rollback && a->Rollback_reservation == res)
        }),
    decreases steps.len() - k,
{
    let st = steps[k];
    assert(reservation_accounted(st.0, st.1, st.2, st.3));
    if k < steps.len() - 1 {
        assert(!ends(st.3));
        assert(held(st.2) == Some(res));
        let nx = steps[k + 1];
        assert(nx.0 == st.2);
        assert(in_play(nx.0, nx.1) == Some(res));
        law_reservation_settled_or_rolled_back(steps, k + 1, res);
    }
}

/// The account's reserved and spent amounts after an ending action, as
/// `settle_budget` and `rollback_budget` change them: a settlement releases its
/// reservation and spends the cost of its usage over `duration_ms`, a rollback
/// only releases; any other action leaves both.
pub open spec fn account_after(reserved: u64, spent: u64, a: ExecAction, duration_ms: u64) -> (u64, u64) {
    match a {
        ExecAction::Settle { reservation, provider_tokens, tool_invocations, .. } => (
            sat_sub(reserved, reservation@.reserved_micros),
            sat_add(spent, cost_of(provider_tokens, tool_invocations, duration_ms).total_cost_micros),
        ),
        ExecAction::Rollback { reservation, .. } => (sat_sub(reserved, reservation@.reserved_micros), spent),
        _ => (reserved, spent),
    }
}

/// What a whole run costs the account that held `reserved` and had spent `spent`
/// before its precharge: the reserved amount comes back to `reserved`, and the
/// spent amount grows by the cost of the usage when the run settles and stays
/// when it rolls back.
pub open spec fn run_charged(reserved: u64, spent: u64, a: ExecAction, duration_ms: u64) -> bool {
    let after = account_after((reserved + released_amount(a)) as u64, spent, a, duration_ms);
    &&& after.0 == reserved
    &&& after.1 == (match a {
        ExecAction::Settle { provider_tokens, tool_invocations, .. } => sat_add(
            spent,
            cost_of(provider_tokens, tool_invocations, duration_ms).total_cost_micros,
        ),
        _ => spent,
    })
}

/// The amount an ending action releases.
pub open spec fn released_amount(a: ExecAction) -> u64 {
    match a {
        ExecAction::Settle { reservation, .. } => reservation@.reserved_micros,
        ExecAction::Rollback { reservation, .. } => reservation@.reserved_micros,
        _ => 0,
    }
}

/// Once a step of a run puts a reservation in play, the run ends releasing that
/// reservation; applied to the account the precharge reserved it on, the
/// account's reserved amount returns to what it was before the precharge and
/// its spent amount grows by the settled cost only when the run settles.
pub proof fn law_run_restores_reserved_and_charges_only_settlements(
    steps: Seq<ExecStepView>,
    k: int,
    res: BudgetReservation,
    reserved: u64,
    spent: u64,
    duration_ms: u64,
)
    requires
        accounted_run(steps),
        0 <= k < steps.len(),
        in_play(steps[k].0, steps[k].1) == Some(res),
        ends(steps.last().3),
        reserved + res@.reserved_micros <= u64::MAX,
    ensures
        released_amount(steps.last().3) == res@.reserved_micros,
        run_charged(reserved, spent, steps.last().3, duration_ms),
{
    law_reservation_settled_or_rolled_back(steps, k, res);
}

/// Which stage an execution is in, without what the stage holds.
#[derive(Debug, Clone, Copy, PartialEq, Eq, Structural)]
pub enum ExecStageKind {
    Start,
    CheckingIdentity,
    LoadingDegrade,
    Precharging,
    CallingProvider,
    Guarding,
    RunningTool,
    Done,
}

/// The kind of a stage.
pub open spec fn kind_of(s: ExecStage) -> ExecStageKind {
    match s {
        ExecStage::Start => ExecStageKind::Start,
        ExecStage::CheckingIdentity => ExecStageKind::CheckingIdentity,
        ExecStage::LoadingDegrade => ExecStageKind::LoadingDegrade,
        ExecStage::Precharging { .. } => ExecStageKind::Precharging,
        ExecStage::CallingProvider { .. } => ExecStageKind::CallingProvider,
        ExecStage::Guarding { .. } => ExecStageKind::Guarding,
        ExecStage::RunningTool { .. } => ExecStageKind::RunningTool,
        ExecStage::Done => ExecStageKind::Done,
    }
}

impl ExecStage {
    /// The kind of this stage.
    pub fn kind(&self) -> (k: ExecStageKind)
        ensures
            k == kind_of(*self),
    {
        match self {
            ExecStage::Start => ExecStageKind::Start,
            ExecStage::CheckingIdentity => ExecStageKind::CheckingIdentity,
            ExecStage::LoadingDegrade => ExecStageKind::LoadingDegrade,
            ExecStage::Precharging { .. } => ExecStageKind::Precharging,
            ExecStage::CallingProvider { .. } => ExecStageKind::CallingProvider,
            ExecStage::Guarding { .. } => ExecStageKind::Guarding,
            ExecStage::RunningTool { .. } => ExecStageKind::RunningTool,
            ExecStage::Done => ExecStageKind::Done,
        }
    }
}

/// The audit stream an execution event is appended to.
#[derive(Debug, Clone, Copy, PartialEq, Eq, Structural)]
pub enum AuditStream {
    /// Runs that happened, allowed or awaiting approval.
    TaskRuns,
    /// Executions the budget or the guard blocked.
    RuntimeBlocks,
}

/// What the audit trail records of an execution that ends with `a` from a stage
/// of kind `from`, and whether a replay snapshot is taken: a refused precharge or
/// a provider call over its token budget is a runtime block; a provider that
/// answered is a task run with a snapshot; a tool task the guard decided (run or
/// refused) is recorded by its decision with a snapshot; degraded endings and
/// failures are not recorded.
pub open spec fn audit_of(from: ExecStageKind, a: ExecAction) -> Option<(AuditStream, bool)> {
    match (from, outcome_of(a)) {
        (ExecStageKind::Precharging, Some(Err(_))) => Some((AuditStream::RuntimeBlocks, false)),
        (ExecStageKind::CallingProvider, Some(Ok(_))) => if degrade_of(a) is None {
            Some((AuditStream::TaskRuns, true))
        } else {
            None
        },
        (ExecStageKind::Guarding, Some(Ok(r))) => if r.guard_report.decision == GuardDecision::Blocked {
            Some((AuditStream::RuntimeBlocks, true))
        } else {
            Some((AuditStream::TaskRuns, true))
        },
        (ExecStageKind::RunningTool, Some(Ok(_))) => if degrade_of(a) is None {
            Some((AuditStream::TaskRuns, true))
        } else {
            None
        },
        _ => None,
    }
}

/// What the audit trail records of an execution ending with `a` from a stage of
/// kind `from`.
pub fn audit_for(from: ExecStageKind, a: &ExecAction) -> (r: Option<(AuditStream, bool)>)
    ensures
        r == audit_of(from, *a),
{
    let (outcome, degraded) = match a {
        ExecAction::Settle { result, .. } => (Some(Ok(result.guard_report.decision)), false),
        ExecAction::Rollback { outcome, degrade, .. } => (
            Some(
                match outcome {
                    Ok(r) => Ok(r.guard_report.decision),
                    Err(_) => Err(()),
                },
            ),
            degrade.is_some(),
        ),
        ExecAction::Finish { outcome, degrade } => (
            Some(
                match outcome {
                    Ok(r) => Ok(r.guard_report.decision),
                    Err(_) => Err(()),
                },
            ),
            degrade.is_some(),
        ),
        _ => (None, false),
    };
    match (from, outcome) {
        (ExecStageKind::Precharging, Some(Err(()))) => Some((AuditStream::RuntimeBlocks, false)),
        (ExecStageKind::CallingProvider, Some(Ok(_))) => {
            if degraded {
                None
            } else {
                Some((AuditStream::TaskRuns, true))
            }
        },
        (ExecStageKind::Guarding, Some(Ok(d))) => {
            if d == GuardDecision::Blocked {
                Some((AuditStream::RuntimeBlocks, true))
            } else {
                Some((AuditStream::TaskRuns, true))
            }
        },
        (ExecStageKind::RunningTool, Some(Ok(_))) => {
            if degraded {
                None
            } else {
                Some((AuditStream::TaskRuns, true))
            }
        },
        _ => None,
    }
}

} // verus!
