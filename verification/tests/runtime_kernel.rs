use autoloop::config::{AppConfig, RuntimeGateMode};
use autoloop::contracts::types::{ConstraintSet, ExecutionIdentity, TaskEnvelope, TaskPayload};
use autoloop::providers::{ChatMessage, LlmResponse, ProviderRegistry};
use autoloop::runtime::budget::{BudgetReservation, PrechargeOutcome, RollbackResult, SettleResult, SpendLedgerKind};
use autoloop::runtime::circuit::{CircuitPhase, CircuitState};
use autoloop::runtime::degrade::{active_degrade_profile, ChaosCase, DegradeProfileKind, FailoverRecord, RecoverOutcome};
use autoloop::runtime::execute::{estimate_tokens, fallback_provider_response};
use autoloop::runtime::flow::{audit_for, precharge_event, AuditStream, ExecAction, ExecEvent, ExecStage, ExecStageKind};
use autoloop::runtime::guard::{GuardDecision, RuntimeGuardReport};
use autoloop::runtime::kernel::RuntimeKernel;
use autoloop::runtime::replay::{
    latest_session_replay, replay_analysis_prefix, replay_id, replay_route_changed, replay_run_report, session_replay_order,
    DeterminismBoundary, ReplayAnalysisReport, ReplaySnapshot,
};
use autoloop::runtime::sandbox::{enforce_working_directory_policy, validate_command_spec, RenderedCommandSpec};
use autoloop::runtime::guard::SandboxPolicy;
use autoloop::runtime::identity::{PolicyBinding, Principal, RoleBinding, SessionLease, Tenant};

fn kernel() -> RuntimeKernel {
    RuntimeKernel::from_config(&AppConfig::default_config().runtime)
}

fn constraints(timeout_ms: u64) -> ConstraintSet {
    ConstraintSet {
        max_cpu_percent: 80,
        max_memory_mb: 512,
        timeout_ms,
        max_retries: 1,
        max_tokens: 1024,
        io_allow_paths: vec![".".to_string()],
        io_deny_paths: vec!["/etc".to_string()],
        sandbox_profile: "standard".to_string(),
        requires_human_approval: false,
    }
}

fn envelope(capability_id: &str, payload: TaskPayload) -> TaskEnvelope {
    TaskEnvelope {
        session_id: "session-1".to_string(),
        trace_id: "trace".to_string(),
        task_id: "task".to_string(),
        capability_id: capability_id.to_string(),
        identity: ExecutionIdentity {
            tenant_id: "tenant:test".to_string(),
            principal_id: "principal:test".to_string(),
            policy_id: "policy:test".to_string(),
            lease_token: "lease:test".to_string(),
        },
        payload,
        constraints: constraints(120_000),
    }
}

fn user(content: &str) -> ChatMessage {
    ChatMessage { role: "user".to_string(), content: content.to_string() }
}

#[test]
fn default_kernel_validates_and_uses_contract_version() {
    let k = kernel();
    assert!(k.validate().is_ok());
    assert_eq!(k.effective_contract_version(), "v1");
    assert_eq!(k.gate_enforce_ratio, 2000);
}

#[test]
fn kernel_validation_names_the_first_bad_limit() {
    let mut config = AppConfig::default_config().runtime;
    config.max_parallel_agents = 0;
    assert_eq!(
        RuntimeKernel::from_config(&config).validate().unwrap_err(),
        "runtime.max_parallel_agents must be greater than 0"
    );
    let mut config = AppConfig::default_config().runtime;
    config.quota_window_ms = 0;
    assert_eq!(RuntimeKernel::from_config(&config).validate().unwrap_err(), "runtime.quota_window_ms must be greater than 0");
}

#[test]
fn gate_modes_decide_enforcement() {
    let mut config = AppConfig::default_config().runtime;
    assert!(!RuntimeKernel::from_config(&config).should_enforce_gate("s", "t"));
    config.gate_mode = RuntimeGateMode::Full;
    assert!(RuntimeKernel::from_config(&config).should_enforce_gate("s", "t"));
    config.gate_mode = RuntimeGateMode::Canary;
    config.gate_enforce_ratio = 0;
    assert!(!RuntimeKernel::from_config(&config).should_enforce_gate("s", "t"));
    config.gate_enforce_ratio = 50_000;
    let everyone = RuntimeKernel::from_config(&config);
    assert_eq!(everyone.gate_enforce_ratio, 10_000);
    assert!(everyone.should_enforce_gate("s", "t"));
}

#[test]
fn precharge_reserves_then_settle_refunds_the_difference() {
    let k = kernel();
    let env = envelope("provider:default", TaskPayload::Text("hi".to_string()));
    assert_eq!(k.estimate_precharge_micros(&env, 100), 11_200);
    let outcome = k.precharge_budget(&env, 100, None, None, 7_200_000);
    let (account, window, ledger, reservation) = match outcome {
        PrechargeOutcome::Reserved { account, window, ledger, reservation } => (account, window, ledger, reservation),
        _ => panic!("expected a reservation"),
    };
    assert_eq!(account.account_id, "tenant:test:principal:test:policy:test");
    assert_eq!(account.reserved_micros, 11_200);
    assert_eq!(window.window_id, "2");
    assert_eq!(window.window_start_ms, 7_200_000);
    assert_eq!(window.window_end_ms, 10_800_000);
    assert_eq!(window.consumed_micros, 11_200);
    assert_eq!(ledger.kind, SpendLedgerKind::Reserve);
    assert_eq!(ledger.amount_micros, 11_200);
    assert_eq!(reservation.reservation_id(), "reserve:trace:task:7200000");

    let settled = k.settle_budget(&env, &reservation, 50, 0, 10, Some(account.clone()), Some(window.clone()), 7_200_100);
    match settled {
        Ok(SettleResult::Settled(outcome)) => {
            assert_eq!(outcome.breakdown.total_cost_micros, 520);
            assert_eq!(outcome.account.reserved_micros, 0);
            assert_eq!(outcome.account.spent_micros, 520);
            assert_eq!(outcome.window.consumed_micros, 520);
            assert_eq!(outcome.refund_entry.expect("refund").amount_micros, -10_680);
        },
        _ => panic!("expected a settlement"),
    }

    let rolled = k.rollback_budget(&env, &reservation, "blocked", Some(account), Some(window), 7_200_200);
    match rolled {
        Ok(RollbackResult::RolledBack(outcome)) => {
            assert_eq!(outcome.account.reserved_micros, 0);
            assert_eq!(outcome.window.consumed_micros, 0);
            assert_eq!(outcome.refund_entry.amount_micros, -11_200);
        },
        _ => panic!("expected a rollback"),
    }
}

#[test]
fn precharge_blocks_when_the_window_is_spent() {
    let mut config = AppConfig::default_config().runtime;
    config.quota_window_budget_micros = 1_000;
    let k = RuntimeKernel::from_config(&config);
    let env = envelope("tool", TaskPayload::Text("x".to_string()));
    match k.precharge_budget(&env, 0, None, None, 0) {
        PrechargeOutcome::Blocked { account, window, ledger } => {
            assert_eq!(account.blocked_count, 1);
            assert_eq!(window.blocked_count, 1);
            assert_eq!(ledger.kind, SpendLedgerKind::Blocked);
            assert_eq!(ledger.reason, "budget_precharge_exceeded");
        },
        _ => panic!("expected a block"),
    }
}

#[test]
fn settle_without_account_fails() {
    let k = kernel();
    let env = envelope("provider:default", TaskPayload::Text("hi".to_string()));
    let reservation = match k.precharge_budget(&env, 1, None, None, 0) {
        PrechargeOutcome::Reserved { reservation, .. } => reservation,
        _ => panic!("expected a reservation"),
    };
    assert_eq!(
        k.settle_budget(&env, &reservation, 1, 0, 1, None, None, 5).err(),
        Some("budget account missing during settle".to_string())
    );
}

#[test]
fn circuit_opens_after_threshold_failures_and_half_opens_after_cooldown() {
    let mut config = AppConfig::default_config().runtime;
    config.tool_breaker_failure_threshold = 2;
    config.tool_breaker_cooldown_ms = 60_000;
    let k = RuntimeKernel::from_config(&config);
    let state = k.default_circuit_state(k.tool_circuit_key("mcp::local-mcp::test"), false);
    assert_eq!(state.scope_key, "metrics:circuit:tool:mcp::local-mcp::test");
    let once = k.transition_circuit_state(state, false, 1_000, "first failure".to_string());
    assert_eq!(once.phase, CircuitPhase::Closed);
    let twice = k.transition_circuit_state(once, false, 2_000, "second failure".to_string());
    assert_eq!(twice.phase, CircuitPhase::Open);
    assert_eq!(twice.opened_at_ms, Some(2_000));
    assert_eq!(
        k.circuit_block_reason(&twice, 12_000),
        Some("cooldown active for 50000 ms (failures: 2)".to_string())
    );
    assert_eq!(k.circuit_block_reason(&twice, 62_000), None);
    let refreshed = k.refresh_loaded_circuit(twice.clone(), 62_000);
    assert_eq!(refreshed.phase, CircuitPhase::HalfOpen);
    let closed = k.transition_circuit_state(refreshed, true, 63_000, "ok".to_string());
    assert_eq!(closed.phase, CircuitPhase::Closed);
    assert_eq!(closed.failure_count, 0);

    let guarded = k.guard_tool_execution_with_state("session-1", "mcp::local-mcp::test", None, Some(twice), None, 12_000);
    assert_eq!(guarded.decision, GuardDecision::Blocked);
    assert!(guarded.reason.starts_with("tool circuit open"));
}

#[test]
fn half_open_tool_circuit_allows_a_single_attempt() {
    let k = kernel();
    let state = CircuitState {
        scope_key: k.tool_circuit_key("read_file"),
        failure_count: 3,
        success_count: 0,
        phase: CircuitPhase::HalfOpen,
        opened_at_ms: Some(0),
        last_failure_ms: Some(0),
        last_success_ms: None,
        cooldown_ms: 10,
        threshold: 3,
        last_reason: None,
    };
    let report = k.guard_tool_execution_with_state("a", "read_file", None, Some(state), None, 100);
    assert_eq!(report.decision, GuardDecision::Allow);
    assert_eq!(report.attempts_allowed, 1);
    assert!(report.reason.starts_with("tool circuit is half-open"));
}

#[test]
fn degrade_profiles_restrict_as_configured() {
    let k = kernel();
    let read_only = k.degrade_profile_from_kind(DegradeProfileKind::ReadOnly, "db down", 1_000);
    assert_eq!(read_only.profile_id, "degrade:read-only:1000");
    assert!(read_only.read_only_mode);
    assert!(!read_only.allow_mcp_calls);
    assert_eq!(read_only.expires_at_ms, Some(301_000));
    let throttle = k.degrade_profile_from_kind(DegradeProfileKind::QueueThrottle, "busy", 0);
    assert_eq!(throttle.max_parallel_agents_override, Some(2));
    let manual = k.degrade_profile_from_kind(DegradeProfileKind::ManualTakeover, "stop", 5);
    assert_eq!(manual.expires_at_ms, None);
    assert!(active_degrade_profile(Some(read_only.clone()), 300_999).is_some());
    assert!(active_degrade_profile(Some(read_only), 301_000).is_none());
}

#[test]
fn recovery_marks_latest_open_failover_with_mttr() {
    let k = kernel();
    let (profile, record) =
        k.apply_degrade_profile("session-p11-recover", "trigger:p11", DegradeProfileKind::QueueThrottle, "queue congestion", 1_000);
    assert!(!record.recovered);
    let records: Vec<FailoverRecord> = vec![record];
    match k.recover_from_degrade(Some(profile), records, "queue drained", 4_000) {
        RecoverOutcome::Cleared(Some(recovered)) => {
            assert!(recovered.recovered);
            assert_eq!(recovered.mttr_ms, Some(3_000));
            assert_eq!(recovered.outcome, "recovered");
            assert_eq!(recovered.notes.last().map(String::as_str), Some("queue drained"));
        },
        _ => panic!("expected a recovered record"),
    }
    assert!(matches!(k.recover_from_degrade(None, Vec::new(), "x", 5), RecoverOutcome::NoActiveProfile));
}

#[test]
fn chaos_case_applies_its_expected_profile() {
    let k = kernel();
    let case = ChaosCase {
        case_id: "db-unavailable".to_string(),
        name: "db unavailable".to_string(),
        fault: "db_unavailable".to_string(),
        expected_profile: DegradeProfileKind::ReadOnly,
        target: "spacetimedb".to_string(),
        injected_at_ms: 10,
    };
    let (profile, record, _plan) = k.run_chaos_case("session-p11-chaos", &case, 20);
    assert_eq!(record.profile, DegradeProfileKind::ReadOnly);
    assert!(profile.read_only_mode);
}

#[test]
fn sandbox_blocks_interpreters_and_denied_paths() {
    let policy = SandboxPolicy {
        filesystem_allow: vec![".".to_string()],
        filesystem_deny: vec!["/etc".to_string()],
        cpu_budget_ms: 1_000,
        memory_budget_mb: 64,
    };
    let shell = RenderedCommandSpec {
        executable: "powershell".to_string(),
        args: vec!["-Command".to_string(), "Get-Date".to_string()],
        working_directory: Some(".".to_string()),
    };
    let error = validate_command_spec(&shell, &policy).unwrap_err();
    assert!(error.contains("interpreter-style executable"));
    let reader = RenderedCommandSpec {
        executable: "cat".to_string(),
        args: vec!["/ETC/passwd".to_string()],
        working_directory: None,
    };
    assert!(validate_command_spec(&reader, &policy).unwrap_err().contains("denied path-like argument"));
    let fine = RenderedCommandSpec { executable: "rustc".to_string(), args: vec!["--version".to_string()], working_directory: None };
    assert!(validate_command_spec(&fine, &policy).is_ok());
    assert!(enforce_working_directory_policy("./workspace", &policy).is_ok());
    assert!(enforce_working_directory_policy("/home/user/project", &policy).unwrap_err().contains("outside allowlist"));
    assert!(enforce_working_directory_policy("/etc/app.d", &policy).unwrap_err().contains("inside denylist"));
}

#[test]
fn token_estimate_and_fallback_reply() {
    let messages = vec![user("abcd"), user("abcde")];
    assert_eq!(estimate_tokens(&messages), 5);
    let reply = fallback_provider_response(&messages, "timeout");
    assert_eq!(
        reply.content.as_deref(),
        Some(
            "degraded-provider-fallback: temporarily unavailable upstream provider; partial response kept for availability. request=\"abcde\" error=\"timeout\""
        )
    );
    assert!(reply.tool_calls.is_empty());
}

fn snapshot(route_model: Option<&str>, mode: &str) -> ReplaySnapshot {
    ReplaySnapshot {
        snapshot_id: "snap".to_string(),
        session_id: "session-1".to_string(),
        trace_id: "trace".to_string(),
        task_id: "task".to_string(),
        capability_id: "provider:default".to_string(),
        actor_id: "replay-runner".to_string(),
        preferred_model: None,
        route_model: route_model.map(str::to_string),
        input_digest: "in".to_string(),
        parameters_digest: "params".to_string(),
        output_digest: "out".to_string(),
        boundary: DeterminismBoundary {
            mode: mode.to_string(),
            locked_fields: Vec::new(),
            non_deterministic_steps: Vec::new(),
            external_dependencies: vec!["provider:openai-compatible".to_string()],
        },
        created_at_ms: 1,
    }
}

#[test]
fn replay_with_same_output_matches() {
    let report = replay_run_report(&snapshot(None, "strict"), "out", false, 9);
    assert!(report.matched);
    assert!(report.deterministic_boundary_respected);
    assert!(report.deviations.is_empty());
    assert_eq!(report.notes, vec!["external dependencies detected: provider:openai-compatible".to_string()]);
}

#[test]
fn replay_drift_is_explained() {
    let report = replay_run_report(&snapshot(Some("gpt-4.1-nano"), "strict"), "other", true, 9);
    assert!(!report.matched);
    assert!(!report.deterministic_boundary_respected);
    assert_eq!(report.deviations.len(), 2);
    assert_eq!(report.deviations[0].field, "output_digest");
    assert_eq!(report.deviations[0].severity, "high");
    assert_eq!(report.deviations[1].field, "route_model");
    let relaxed = replay_run_report(&snapshot(None, "bounded"), "other", false, 9);
    assert!(relaxed.deterministic_boundary_respected);
}

#[test]
fn replay_route_comparison_uses_current_routing() {
    let providers = ProviderRegistry::from_config(&AppConfig::default_config().providers, false);
    let env = envelope("provider:default", TaskPayload::Messages(vec![user("say hello")]));
    assert!(!replay_route_changed(&providers, &env, &snapshot(Some("gpt-4.1-nano"), "strict")));
    assert!(replay_route_changed(&providers, &env, &snapshot(Some("gpt-5"), "strict")));
    assert!(!replay_route_changed(&providers, &env, &snapshot(None, "strict")));
    let tool = envelope("read_file", TaskPayload::Text("x".to_string()));
    assert!(!replay_route_changed(&providers, &tool, &snapshot(Some("gpt-5"), "strict")));
    assert_eq!(replay_id("trace", 42), "trace:replay:42");
}

fn tenant(status: &str) -> Tenant {
    Tenant { tenant_id: "tenant:test".to_string(), name: "tenant:test".to_string(), status: status.to_string(), created_at_ms: 0 }
}

fn principal() -> Principal {
    Principal {
        principal_id: "principal:test".to_string(),
        tenant_id: "tenant:test".to_string(),
        principal_type: "user".to_string(),
        status: "active".to_string(),
        created_at_ms: 0,
    }
}

fn role(role: &str) -> RoleBinding {
    RoleBinding {
        tenant_id: "tenant:test".to_string(),
        principal_id: "principal:test".to_string(),
        role: role.to_string(),
        updated_at_ms: 0,
    }
}

fn policy(prefix: &str) -> PolicyBinding {
    PolicyBinding {
        policy_id: "policy:test".to_string(),
        tenant_id: "tenant:test".to_string(),
        role: "operator".to_string(),
        allowed_actions: vec!["dispatch".to_string()],
        capability_prefixes: vec![prefix.to_string()],
        max_memory_mb: 512,
        max_tokens: 4096,
        updated_at_ms: 0,
    }
}

fn lease(expires_at_ms: u64) -> SessionLease {
    SessionLease {
        lease_token: "lease:test".to_string(),
        session_id: "session-1".to_string(),
        tenant_id: "tenant:test".to_string(),
        principal_id: "principal:test".to_string(),
        policy_id: "policy:test".to_string(),
        expires_at_ms,
        issued_at_ms: 0,
    }
}

#[test]
fn identity_with_live_matching_lease_passes() {
    let k = kernel();
    let env = envelope("provider:default", TaskPayload::Text("hi".to_string()));
    let result = k.validate_execution_identity(
        &env,
        Some(tenant("active")),
        Some(principal()),
        Some(role("operator")),
        Some(policy("provider:")),
        Some(lease(100)),
        50,
    );
    assert!(result.is_ok());
}

#[test]
fn identity_failures_name_the_first_problem() {
    let k = kernel();
    let env = envelope("provider:default", TaskPayload::Text("hi".to_string()));
    let check = |t: Option<Tenant>, r: &str, p: &str, l: u64| {
        k.validate_execution_identity(&env, t, Some(principal()), Some(role(r)), Some(policy(p)), Some(lease(l)), 50)
            .unwrap_err()
    };
    assert_eq!(check(None, "operator", "provider:", 100), "tenant not found");
    assert_eq!(check(Some(tenant("suspended")), "operator", "provider:", 100), "tenant is not active");
    assert_eq!(check(Some(tenant("active")), "viewer", "provider:", 100), "role downgraded or mismatched with policy");
    assert_eq!(check(Some(tenant("active")), "operator", "provider:", 50), "session lease expired");
    assert_eq!(check(Some(tenant("active")), "operator", "mcp::", 100), "capability not allowed by policy");
}

#[test]
fn reconciliation_matches_a_settled_reservation() {
    let k = kernel();
    let env = envelope("provider:default", TaskPayload::Text("hi".to_string()));
    let (account, window, reserve_entry, reservation) = match k.precharge_budget(&env, 100, None, None, 0) {
        PrechargeOutcome::Reserved { account, window, ledger, reservation } => (account, window, ledger, reservation),
        _ => panic!("expected a reservation"),
    };
    let outcome = match k.settle_budget(&env, &reservation, 50, 0, 10, Some(account), Some(window), 5) {
        Ok(SettleResult::Settled(outcome)) => outcome,
        _ => panic!("expected a settlement"),
    };
    let mut ledger = vec![reserve_entry, outcome.settle_entry.clone()];
    ledger.extend(outcome.refund_entry.clone());
    let report = k
        .reconcile_budget_account("tenant:test", "tenant:test:principal:test:policy:test", Some(outcome.account.clone()), &ledger)
        .expect("report");
    assert_eq!(report.ledger_settled_micros, 520);
    assert_eq!(report.ledger_reserved_open_micros, 0);
    assert!(report.consistent);
    assert_eq!(
        k.reconcile_budget_account("tenant:test", "missing", None, &ledger).unwrap_err(),
        "budget account not found"
    );
}

#[test]
fn read_only_degrade_blocks_tools_but_not_providers() {
    let k = kernel();
    let profile = k.degrade_profile_from_kind(DegradeProfileKind::ReadOnly, "db down", 7);
    let blocked = k.degrade_gate(&profile, "read_file", 30_000).expect("refusal");
    assert_eq!(blocked.guard_report.decision, GuardDecision::Blocked);
    assert_eq!(blocked.guard_report.reason, "degrade read-only mode active: db down");
    assert_eq!(blocked.guard_report.breaker_key, "degrade:degrade:read-only:7");
    assert_eq!(blocked.guard_report.timeout_secs, 30);
    assert_eq!(blocked.content, "runtime is in read-only degrade profile `degrade:read-only:7`; write/mcp execution blocked");
    assert!(k.degrade_gate(&profile, "provider:default", 30_000).is_none());
    let conservative = k.degrade_profile_from_kind(DegradeProfileKind::McpConservative, "mcp flaky", 1);
    let waiting = k.degrade_gate(&conservative, "mcp::local-mcp::invoke", 5_000).expect("refusal");
    assert_eq!(waiting.guard_report.decision, GuardDecision::RequiresApproval);
}

#[test]
fn unenforced_refusals_are_only_observed() {
    let k = kernel();
    let report = k.guard_tool_execution("a", "read_file", None);
    let approval = k.apply_gate(report.clone(), true, true);
    assert_eq!(approval.decision, GuardDecision::RequiresApproval);
    assert_eq!(approval.reason, "TaskEnvelope requires human approval");
    let observed = k.apply_gate(report.clone(), true, false);
    assert_eq!(observed.decision, GuardDecision::Allow);
    assert_eq!(observed.reason, "shadow-observe-only (original decision RequiresApproval)");
    let untouched = k.apply_gate(report, false, true);
    assert_eq!(untouched.decision, GuardDecision::Allow);
    assert_eq!(untouched.reason, "runtime guard allows bounded execution");
}

#[test]
fn provider_token_budget_is_enforced() {
    let k = kernel();
    assert!(k.check_provider_token_budget(10, 10).is_ok());
    assert_eq!(
        k.check_provider_token_budget(11, 10).unwrap_err(),
        "provider token budget exceeded: estimated=11 max=10"
    );
}

fn reserved(k: &RuntimeKernel, env: &TaskEnvelope, tokens: u32) -> BudgetReservation {
    match k.precharge_budget(env, tokens, None, None, 0) {
        PrechargeOutcome::Reserved { reservation, .. } => reservation,
        _ => panic!("expected a reservation"),
    }
}

#[test]
fn execution_steps_settle_a_provider_call() {
    let k = kernel();
    let env = envelope("provider:default", TaskPayload::Messages(vec![user("hello there")]));
    let (stage, action) = k.execute_step("actor", &env, ExecStage::Start, ExecEvent::Started);
    assert!(matches!(action, ExecAction::ValidateIdentity));
    let (stage, action) = k.execute_step("actor", &env, stage, ExecEvent::IdentityChecked(Ok(())));
    assert!(matches!(action, ExecAction::LoadDegradeProfile));
    let (stage, action) = k.execute_step("actor", &env, stage, ExecEvent::DegradeLoaded(None));
    let expected_tokens = estimate_tokens(&vec![user("hello there")]);
    match action {
        ExecAction::Precharge { estimated_tokens } => assert_eq!(estimated_tokens, expected_tokens),
        other => panic!("expected a precharge, got {:?}", other),
    }
    let reservation = reserved(&k, &env, expected_tokens);
    let id = reservation.reservation_id().clone();
    let (stage, action) = k.execute_step("actor", &env, stage, ExecEvent::Precharged(Ok(Some(reservation))));
    match &action {
        ExecAction::CallProvider { messages } => {
            assert_eq!(messages.len(), 1);
            assert_eq!(messages[0].content, "hello there");
        },
        other => panic!("expected a provider call, got {:?}", other),
    }
    let reply = LlmResponse { content: Some("hi".to_string()), tool_calls: Vec::new() };
    let (stage, action) = k.execute_step("actor", &env, stage, ExecEvent::ProviderReplied(Ok(reply)));
    assert!(matches!(stage, ExecStage::Done));
    match action {
        ExecAction::Settle { reservation, provider_tokens, tool_invocations, result } => {
            assert_eq!(reservation.reservation_id(), id);
            assert_eq!(provider_tokens, expected_tokens);
            assert_eq!(tool_invocations, 0);
            assert_eq!(result.provider_response.unwrap().content, Some("hi".to_string()));
        },
        other => panic!("expected a settlement, got {:?}", other),
    }
}

#[test]
fn execution_steps_roll_back_a_guard_refusal() {
    let mut config = AppConfig::default_config().runtime;
    config.gate_mode = RuntimeGateMode::Full;
    let k = RuntimeKernel::from_config(&config);
    let env = envelope("cli::echo", TaskPayload::Text("abcdefgh".to_string()));
    let (stage, _) = k.execute_step("actor", &env, ExecStage::Start, ExecEvent::Started);
    let (stage, _) = k.execute_step("actor", &env, stage, ExecEvent::IdentityChecked(Ok(())));
    let (stage, action) = k.execute_step("actor", &env, stage, ExecEvent::DegradeLoaded(None));
    match action {
        ExecAction::Precharge { estimated_tokens } => assert_eq!(estimated_tokens, 2),
        other => panic!("expected a precharge, got {:?}", other),
    }
    let reservation = reserved(&k, &env, 2);
    let (stage, action) = k.execute_step("actor", &env, stage, ExecEvent::Precharged(Ok(Some(reservation))));
    assert!(matches!(action, ExecAction::EvaluateGuard));
    let guard = RuntimeGuardReport {
        decision: GuardDecision::Blocked,
        attempts_allowed: 0,
        timeout_secs: 1,
        reason: "denied by policy".to_string(),
        breaker_key: "cli::echo".to_string(),
        sandbox_policy: None,
    };
    let (stage, action) = k.execute_step("actor", &env, stage, ExecEvent::GuardEvaluated { guard });
    assert!(matches!(stage, ExecStage::Done));
    match action {
        ExecAction::Rollback { reason, degrade, outcome, .. } => {
            assert_eq!(reason, "runtime_guard_blocked");
            assert!(degrade.is_none());
            assert_eq!(outcome.unwrap().content, "Execution blocked by runtime guard: denied by policy");
        },
        other => panic!("expected a rollback, got {:?}", other),
    }
}

#[test]
fn execution_steps_end_on_a_failed_identity_check() {
    let k = kernel();
    let env = envelope("cli::echo", TaskPayload::Text("x".to_string()));
    let (stage, _) = k.execute_step("actor", &env, ExecStage::Start, ExecEvent::Started);
    let (stage, action) = k.execute_step("actor", &env, stage, ExecEvent::IdentityChecked(Err("tenant missing".to_string())));
    assert!(matches!(stage, ExecStage::Done));
    match action {
        ExecAction::Finish { degrade, outcome } => {
            assert!(degrade.is_none());
            assert_eq!(outcome.err(), Some("tenant missing".to_string()));
        },
        other => panic!("expected the end, got {:?}", other),
    }
}

#[test]
fn execution_steps_out_of_order_end_with_an_error() {
    let k = kernel();
    let env = envelope("cli::echo", TaskPayload::Text("x".to_string()));
    let (stage, action) = k.execute_step("actor", &env, ExecStage::Start, ExecEvent::DegradeLoaded(None));
    assert!(matches!(stage, ExecStage::Done));
    match action {
        ExecAction::Finish { outcome, .. } => assert_eq!(outcome.err(), Some("execution step out of order".to_string())),
        other => panic!("expected the end, got {:?}", other),
    }
}

#[test]
fn a_refused_precharge_reads_as_its_error() {
    let mut config = AppConfig::default_config().runtime;
    config.quota_window_budget_micros = 1_000;
    let k = RuntimeKernel::from_config(&config);
    let env = envelope("tool", TaskPayload::Text("x".to_string()));
    let outcome = k.precharge_budget(&env, 0, None, None, 0);
    assert_eq!(precharge_event(outcome).err(), Some("budget precharge exceeded".to_string()));
    assert!(precharge_event(PrechargeOutcome::NotEnforced).unwrap().is_none());
}

fn to_precharge(k: &RuntimeKernel, env: &TaskEnvelope) -> (ExecStage, u32) {
    let (stage, _) = k.execute_step("actor", env, ExecStage::Start, ExecEvent::Started);
    let (stage, _) = k.execute_step("actor", env, stage, ExecEvent::IdentityChecked(Ok(())));
    let (stage, action) = k.execute_step("actor", env, stage, ExecEvent::DegradeLoaded(None));
    match action {
        ExecAction::Precharge { estimated_tokens } => (stage, estimated_tokens),
        other => panic!("expected a precharge, got {:?}", other),
    }
}

#[test]
fn execution_steps_refuse_a_provider_call_over_its_token_budget() {
    let k = kernel();
    let mut env = envelope(
        "provider:default",
        TaskPayload::Messages(vec![
            ChatMessage { role: "system".to_string(), content: "system".to_string() },
            user("this payload should exceed a tiny token budget"),
        ]),
    );
    env.constraints.max_tokens = 2;
    let (stage, tokens) = to_precharge(&k, &env);
    let reservation = reserved(&k, &env, tokens);
    let (stage, action) = k.execute_step("actor", &env, stage, ExecEvent::Precharged(Ok(Some(reservation))));
    assert!(matches!(stage, ExecStage::Done));
    match action {
        ExecAction::Rollback { reason, outcome, .. } => {
            assert_eq!(reason, "provider_token_budget_exceeded");
            let error = outcome.err().unwrap();
            assert!(error.contains("provider token budget exceeded"));
            assert_eq!(error, format!("provider token budget exceeded: estimated={} max=2", tokens));
        },
        other => panic!("expected a rollback, got {:?}", other),
    }
}

#[test]
fn execution_steps_fall_back_when_the_provider_is_down() {
    let k = kernel();
    let env = envelope("provider:default", TaskPayload::Messages(vec![user("provider outage scenario")]));
    let (stage, _) = to_precharge(&k, &env);
    let (stage, _) = k.execute_step("actor", &env, stage, ExecEvent::Precharged(Ok(None)));
    let (stage, action) =
        k.execute_step("actor", &env, stage, ExecEvent::ProviderReplied(Err("connection refused".to_string())));
    assert!(matches!(stage, ExecStage::Done));
    match action {
        ExecAction::Finish { degrade, outcome } => {
            let (kind, reason) = degrade.expect("a degrade profile");
            assert_eq!(kind, DegradeProfileKind::ProviderFallback);
            assert_eq!(reason, "provider unavailable: connection refused");
            assert!(outcome.unwrap().content.contains("degraded-provider-fallback"));
        },
        other => panic!("expected the end, got {:?}", other),
    }
}

#[test]
fn execution_steps_degrade_an_mcp_tool_that_fails() {
    let k = kernel();
    let env = envelope("mcp::local-mcp::timeout", TaskPayload::Json("{\"arg\":\"x\"}".to_string()));
    let (stage, tokens) = to_precharge(&k, &env);
    let reservation = reserved(&k, &env, tokens);
    let (stage, _) = k.execute_step("actor", &env, stage, ExecEvent::Precharged(Ok(Some(reservation))));
    let guard = RuntimeGuardReport {
        decision: GuardDecision::Allow,
        attempts_allowed: 1,
        timeout_secs: 5,
        reason: "allowed".to_string(),
        breaker_key: "mcp::local-mcp::timeout".to_string(),
        sandbox_policy: None,
    };
    let (stage, action) = k.execute_step("actor", &env, stage, ExecEvent::GuardEvaluated { guard });
    assert!(matches!(action, ExecAction::RunTool { .. }));
    let (stage, action) = k.execute_step(
        "actor",
        &env,
        stage,
        ExecEvent::ToolFinished { output: Err("spawn failed".to_string()), sandbox_policy: None },
    );
    assert!(matches!(stage, ExecStage::Done));
    match action {
        ExecAction::Rollback { reason, degrade, outcome, .. } => {
            assert_eq!(reason, "mcp_execution_error");
            let (kind, why) = degrade.expect("a degrade profile");
            assert_eq!(kind, DegradeProfileKind::McpConservative);
            assert_eq!(why, "mcp execution failed: spawn failed");
            assert!(outcome.unwrap().content.contains("mcp degraded mode activated"));
        },
        other => panic!("expected a rollback, got {:?}", other),
    }
}

#[test]
fn execution_steps_only_observe_a_refusal_in_shadow_rollout() {
    let k = kernel();
    let env = envelope("cli::echo", TaskPayload::Text("abcdefgh".to_string()));
    let (stage, tokens) = to_precharge(&k, &env);
    let reservation = reserved(&k, &env, tokens);
    let (stage, _) = k.execute_step("actor", &env, stage, ExecEvent::Precharged(Ok(Some(reservation))));
    let guard = RuntimeGuardReport {
        decision: GuardDecision::Blocked,
        attempts_allowed: 0,
        timeout_secs: 1,
        reason: "denied by policy".to_string(),
        breaker_key: "cli::echo".to_string(),
        sandbox_policy: None,
    };
    let (stage, action) = k.execute_step("actor", &env, stage, ExecEvent::GuardEvaluated { guard });
    match &action {
        ExecAction::RunTool { guard } => {
            assert_eq!(guard.decision, GuardDecision::Allow);
            assert_eq!(guard.reason, "shadow-observe-only (original decision Blocked)");
        },
        other => panic!("expected the tool to run, got {:?}", other),
    }
    let (_, action) = k.execute_step(
        "actor",
        &env,
        stage,
        ExecEvent::ToolFinished { output: Ok("echoed".to_string()), sandbox_policy: None },
    );
    match action {
        ExecAction::Settle { tool_invocations, result, .. } => {
            assert_eq!(tool_invocations, 1);
            assert_eq!(result.content, "echoed");
            assert_eq!(result.guard_report.decision, GuardDecision::Allow);
        },
        other => panic!("expected a settlement, got {:?}", other),
    }
}

#[test]
fn a_refusal_requiring_approval_reports_the_gated_reason() {
    let mut config = AppConfig::default_config().runtime;
    config.gate_mode = RuntimeGateMode::Full;
    let k = RuntimeKernel::from_config(&config);
    let mut env = envelope("cli::echo", TaskPayload::Text("abcd".to_string()));
    env.constraints.requires_human_approval = true;
    let (stage, tokens) = to_precharge(&k, &env);
    let reservation = reserved(&k, &env, tokens);
    let (stage, _) = k.execute_step("actor", &env, stage, ExecEvent::Precharged(Ok(Some(reservation))));
    let guard = RuntimeGuardReport {
        decision: GuardDecision::Allow,
        attempts_allowed: 2,
        timeout_secs: 3,
        reason: "capability healthy".to_string(),
        breaker_key: "tool:cli::echo".to_string(),
        sandbox_policy: None,
    };
    let (_, action) = k.execute_step("actor", &env, stage, ExecEvent::GuardEvaluated { guard });
    assert_eq!(audit_for(ExecStageKind::Guarding, &action), Some((AuditStream::TaskRuns, true)));
    match action {
        ExecAction::Rollback { reason, outcome, .. } => {
            assert_eq!(reason, "requires_human_approval");
            let result = outcome.unwrap();
            assert_eq!(result.guard_report.decision, GuardDecision::RequiresApproval);
            assert_eq!(result.guard_report.reason, "TaskEnvelope requires human approval");
            assert_eq!(result.guard_report.attempts_allowed, 2);
            assert_eq!(result.guard_report.breaker_key, "tool:cli::echo");
            assert_eq!(
                result.content,
                "Execution requires approval before running cli::echo: TaskEnvelope requires human approval"
            );
        },
        other => panic!("expected a rollback, got {:?}", other),
    }
}

#[test]
fn the_fallback_reply_quotes_the_request_and_the_error() {
    let k = kernel();
    let env = envelope("provider:default", TaskPayload::Messages(vec![user("provider outage scenario")]));
    let (stage, _) = to_precharge(&k, &env);
    let (stage, _) = k.execute_step("actor", &env, stage, ExecEvent::Precharged(Ok(None)));
    let (_, action) = k.execute_step("actor", &env, stage, ExecEvent::ProviderReplied(Err("down".to_string())));
    assert_eq!(audit_for(ExecStageKind::CallingProvider, &action), None);
    match action {
        ExecAction::Finish { outcome, .. } => assert_eq!(
            outcome.unwrap().content,
            "degraded-provider-fallback: temporarily unavailable upstream provider; partial response kept for availability. request=\"provider outage scenario\" error=\"down\""
        ),
        other => panic!("expected the end, got {:?}", other),
    }
}

#[test]
fn audit_records_blocks_and_runs() {
    let k = kernel();
    let env = envelope("provider:default", TaskPayload::Messages(vec![user("hello")]));
    let (stage, _) = to_precharge(&k, &env);
    let (_, action) =
        k.execute_step("actor", &env, stage, ExecEvent::Precharged(Err("budget precharge exceeded".to_string())));
    assert_eq!(audit_for(ExecStageKind::Precharging, &action), Some((AuditStream::RuntimeBlocks, false)));
    let (stage, _) = to_precharge(&k, &env);
    let (stage, _) = k.execute_step("actor", &env, stage, ExecEvent::Precharged(Ok(None)));
    let reply = LlmResponse { content: Some("hi".to_string()), tool_calls: Vec::new() };
    let (_, action) = k.execute_step("actor", &env, stage, ExecEvent::ProviderReplied(Ok(reply)));
    assert_eq!(audit_for(ExecStageKind::CallingProvider, &action), Some((AuditStream::TaskRuns, true)));
    match action {
        ExecAction::Finish { outcome, .. } => {
            let result = outcome.unwrap();
            assert_eq!(result.content, "hi");
            assert_eq!(result.guard_report.reason, "provider execution allowed");
            assert_eq!(result.guard_report.breaker_key, "actor:provider:default");
        },
        other => panic!("expected the end, got {:?}", other),
    }
}

#[test]
fn a_reservation_reports_its_amount() {
    let k = kernel();
    let env = envelope("provider:default", TaskPayload::Text("hi".to_string()));
    let reservation = reserved(&k, &env, 1);
    assert!(reservation.reserved_micros() >= 1000);
    assert!(reservation.reservation_id().starts_with("reserve:"));
}

fn analysis(session_id: &str, created_at_ms: u64, trace_id: &str) -> ReplayAnalysisReport {
    ReplayAnalysisReport {
        snapshot_id: "snap".to_string(),
        session_id: session_id.to_string(),
        trace_id: trace_id.to_string(),
        replay_output_digest: "d".to_string(),
        matched: true,
        deterministic_boundary_respected: true,
        deviations: Vec::new(),
        notes: Vec::new(),
        created_at_ms,
    }
}

#[test]
fn replay_reports_of_a_session_come_in_time_order() {
    let reports = vec![
        analysis("s1", 30, "a"),
        analysis("s2", 10, "b"),
        analysis("s1", 10, "c"),
        analysis("s1", 30, "d"),
        analysis("s1", 20, "e"),
    ];
    assert_eq!(session_replay_order(&reports, "s1"), vec![2, 4, 0, 3]);
    assert_eq!(latest_session_replay(&reports, "s1"), Some(3));
    assert_eq!(latest_session_replay(&reports, "s2"), Some(1));
    assert_eq!(latest_session_replay(&reports, "s3"), None);
    assert!(session_replay_order(&reports, "s3").is_empty());
    assert_eq!(replay_analysis_prefix(None), "replay:analysis:");
    assert_eq!(replay_analysis_prefix(Some("snap")), "replay:analysis:snap:");
}
