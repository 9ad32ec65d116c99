use autoloop::config::AppConfig;
use autoloop::runtime::capability::{
    ApprovalStatus, CapabilityRisk, CapabilityScope, CapabilityStatus, ForgedMcpToolManifest, TrustStatus,
};
use autoloop::runtime::guard::{server_name_for, GuardDecision};
use autoloop::runtime::kernel::RuntimeKernel;
use autoloop::runtime::report::{ExecutionReport, SwarmTask};
use autoloop::runtime::verdict::{
    acceptance_hits, criterion_hits, judge_route, recommended_actions, regression_follow_ups, task_positive_signal,
    verifier_verdict, CapabilityFollowUp, RouteSignals, VerifierVerdict,
};

fn manifest(risk: CapabilityRisk, approval_status: ApprovalStatus, status: CapabilityStatus) -> ForgedMcpToolManifest {
    ForgedMcpToolManifest {
        capability_id: "capability:test".to_string(),
        registered_tool_name: "mcp::local-mcp::test".to_string(),
        delegate_tool_name: "mcp::local-mcp::invoke".to_string(),
        server: "local-mcp".to_string(),
        capability_name: "test".to_string(),
        purpose: "test purpose".to_string(),
        executable: "test-cli".to_string(),
        command_template: "test-cli run".to_string(),
        working_directory: Some(".".to_string()),
        success_signal: Some("completed".to_string()),
        version: 1,
        status,
        approval_status,
        trust_status: TrustStatus::Trusted,
        trust_findings: Vec::new(),
        health_score: 700,
        scope: CapabilityScope::TaskFamily,
        risk,
    }
}

fn runtime() -> RuntimeKernel {
    RuntimeKernel::from_config(&AppConfig::default_config().runtime)
}

fn execution_report(task_id: &str, output: &str, outcome_score: i32, guard_decision: &str) -> ExecutionReport {
    ExecutionReport {
        task: SwarmTask {
            task_id: task_id.to_string(),
            agent_name: "execution-agent".to_string(),
            role: "Execution".to_string(),
            objective: "execute via catalog".to_string(),
            depends_on: Vec::new(),
        },
        output: output.to_string(),
        tool_used: Some("mcp::local-mcp::test".to_string()),
        mcp_server: Some("local-mcp".to_string()),
        invocation_payload: Some("{}".to_string()),
        outcome_score,
        route_variant: "control".to_string(),
        control_score: if outcome_score > 0 { 4 } else { 1 },
        treatment_score: if outcome_score > 0 { 4 } else { 1 },
        guard_decision: guard_decision.to_string(),
    }
}

#[test]
fn runtime_guard_requires_approval_for_high_risk_capability() {
    let runtime = runtime();
    let report = runtime.guard_tool_execution(
        "session-1",
        "mcp::local-mcp::test",
        Some(&manifest(CapabilityRisk::High, ApprovalStatus::Verified, CapabilityStatus::Active)),
    );
    assert_eq!(report.decision, GuardDecision::RequiresApproval);
}

#[test]
fn runtime_guard_blocks_unverified_capability() {
    let runtime = runtime();
    let report = runtime.guard_tool_execution(
        "session-1",
        "mcp::local-mcp::test",
        Some(&manifest(CapabilityRisk::Low, ApprovalStatus::Pending, CapabilityStatus::PendingVerification)),
    );
    assert_eq!(report.decision, GuardDecision::Blocked);
}

#[test]
fn runtime_guard_blocks_untrusted_capability() {
    let runtime = runtime();
    let mut forged = manifest(CapabilityRisk::Low, ApprovalStatus::Verified, CapabilityStatus::Active);
    forged.trust_status = TrustStatus::Rejected;
    forged.trust_findings = vec!["signature verification failed".to_string()];
    let report = runtime.guard_tool_execution("session-1", "mcp::local-mcp::test", Some(&forged));
    assert_eq!(report.decision, GuardDecision::Blocked);
    assert!(report.reason.contains("not trusted"));
}

#[test]
fn verifier_rejects_capability_regression_failures() {
    let runtime = runtime();
    let manifests = vec![manifest(CapabilityRisk::High, ApprovalStatus::Pending, CapabilityStatus::PendingVerification)];
    let criteria = vec!["mcp".to_string()];
    let reports = vec![execution_report(
        "execution-catalog-requires-approval",
        "execution requires approval",
        -6,
        "RequiresApproval",
    )];

    let suite = runtime.run_capability_regression_suite(&manifests);
    let hits = acceptance_hits(&reports, &criteria);
    let coverage = hits as f32 / criteria.len() as f32;
    let verdict = verifier_verdict(suite.all_passed, 0, coverage < 0.75, false, false);

    assert_eq!(verdict, VerifierVerdict::Reject);
    assert!(!suite.all_passed);
    assert!(!suite.failing_tools.is_empty());
}

#[test]
fn verifier_passes_healthy_verified_catalog_execution() {
    let runtime = runtime();
    let manifests = vec![manifest(CapabilityRisk::Low, ApprovalStatus::Verified, CapabilityStatus::Active)];
    let criteria = vec!["mcp".to_string(), "completed".to_string()];
    let reports = vec![execution_report("execution-catalog-healthy", "mcp execution completed successfully", 4, "Allow")];
    let forged = vec!["mcp::local-mcp::test".to_string()];
    let signals =
        RouteSignals { forged_tool_coverage: 1, prefers_cli_execution: false, prefers_mcp_execution: true, pending_event_count: 0 };

    let suite = runtime.run_capability_regression_suite(&manifests);
    let positive = task_positive_signal(&reports[0]);
    let task_hits = criterion_hits(&reports[0].output, &criteria);
    let task_score = (if positive { 0.6f32 } else { 0.1 }) + (task_hits as f32 / criteria.len() as f32) * 0.4;
    let route = judge_route(&reports[0], &forged, &signals);
    let mut route_score = 0.2f32;
    if route.aligned_with_catalog {
        route_score += 0.35;
    }
    if route.aligned_with_graph {
        route_score += 0.25;
    }
    if route.guard_ok {
        route_score += 0.2;
    }
    let coverage = acceptance_hits(&reports, &criteria) as f32 / criteria.len() as f32;
    let capability_score = suite.passed_count as f32 / suite.cases.len() as f32;
    let overall_score = ((task_score + route_score + coverage + capability_score) / 4.0).clamp(0.0, 1.0);
    let verdict = verifier_verdict(suite.all_passed, 0, coverage < 0.75, task_score < 0.6, route_score < 0.6);

    assert_eq!(verdict, VerifierVerdict::Pass);
    assert!(suite.all_passed);
    assert!(overall_score > 0.7);
}

#[test]
fn guard_allows_healthy_low_risk_capability_with_two_attempts() {
    let runtime = runtime();
    let report = runtime.guard_tool_execution(
        "session-1",
        "mcp::local-mcp::test",
        Some(&manifest(CapabilityRisk::Low, ApprovalStatus::Verified, CapabilityStatus::Active)),
    );
    assert_eq!(report.decision, GuardDecision::Allow);
    assert_eq!(report.attempts_allowed, 2);
    assert_eq!(report.timeout_secs, 120);
    assert_eq!(report.breaker_key, "session-1:mcp::local-mcp::test");
    assert_eq!(report.reason, "runtime guard allows bounded execution");
}

#[test]
fn guard_without_manifest_allows_with_default_timeout() {
    let runtime = runtime();
    let report = runtime.guard_tool_execution("actor", "read_file", None);
    assert_eq!(report.decision, GuardDecision::Allow);
    assert_eq!(report.timeout_secs, 90);
    assert!(report.sandbox_policy.is_none());
}

#[test]
fn guard_blocks_unhealthy_capability_with_two_decimals() {
    let runtime = runtime();
    let mut weak = manifest(CapabilityRisk::Low, ApprovalStatus::Verified, CapabilityStatus::Active);
    weak.health_score = 350;
    let report = runtime.guard_tool_execution("s", "mcp::local-mcp::test", Some(&weak));
    assert_eq!(report.decision, GuardDecision::Blocked);
    assert_eq!(report.reason, "capability health 0.35 is below runtime minimum");
}

#[test]
fn guard_names_the_untrusted_findings() {
    let runtime = runtime();
    let mut forged = manifest(CapabilityRisk::Low, ApprovalStatus::Verified, CapabilityStatus::Active);
    forged.trust_status = TrustStatus::Untrusted;
    forged.trust_findings = vec!["a".to_string(), "b".to_string()];
    let report = runtime.guard_tool_execution("s", "t", Some(&forged));
    assert_eq!(report.reason, "capability trust status Untrusted is not trusted (a; b)");
}

#[test]
fn server_name_comes_from_manifest_or_tool_name() {
    let m = manifest(CapabilityRisk::Low, ApprovalStatus::Verified, CapabilityStatus::Active);
    assert_eq!(server_name_for("anything", Some(&m)), Some("local-mcp".to_string()));
    assert_eq!(server_name_for("mcp::other::tool", None), Some("other".to_string()));
    assert_eq!(server_name_for("read_file", None), None);
}

#[test]
fn failing_capability_is_deprecated_with_capped_health() {
    let runtime = runtime();
    let mut failing = manifest(CapabilityRisk::Low, ApprovalStatus::Pending, CapabilityStatus::PendingVerification);
    failing.health_score = 900;
    let healthy = manifest(CapabilityRisk::Low, ApprovalStatus::Verified, CapabilityStatus::Active);
    let suite = runtime.run_capability_regression_suite(&vec![failing, healthy]);
    assert_eq!(suite.passed_count, 1);
    assert_eq!(suite.summary, "1 of 2 capabilities satisfy the verifier baseline.");
    let follow_ups = regression_follow_ups(&suite);
    assert_eq!(follow_ups, vec![CapabilityFollowUp::Deprecate { health_score: 350 }, CapabilityFollowUp::Verify]);
}

#[test]
fn empty_catalog_is_vacuously_green() {
    let runtime = runtime();
    let suite = runtime.run_capability_regression_suite(&Vec::new());
    assert!(suite.all_passed);
    assert_eq!(suite.passed_count, 0);
}

#[test]
fn verdict_needs_iteration_when_events_are_pending() {
    assert_eq!(verifier_verdict(true, 2, false, false, false), VerifierVerdict::NeedsIteration);
    assert_eq!(verifier_verdict(true, 0, false, false, false), VerifierVerdict::Pass);
    assert_eq!(verifier_verdict(false, 0, false, false, false), VerifierVerdict::Reject);
}

#[test]
fn recommended_actions_follow_the_flags_in_order() {
    let actions = recommended_actions(true, false, false, 1);
    assert_eq!(
        actions,
        vec![
            "verifier: expand task evidence for frozen acceptance criteria".to_string(),
            "verifier: deprecate or roll back failing capabilities".to_string(),
            "verifier: drain pending scheduled events before completion".to_string(),
        ]
    );
    assert!(recommended_actions(false, false, true, 0).is_empty());
}

#[test]
fn criterion_hits_ignore_ascii_case() {
    let criteria = vec!["MCP".to_string(), "Done".to_string(), "missing".to_string()];
    assert_eq!(criterion_hits("the mcp job is DONE", &criteria), 2);
}

#[test]
fn rolled_back_iteration_asks_for_reflexion() {
    let runtime = runtime();
    assert!(runtime.learn_from_iteration_failure(true, None).is_none());
    let task = runtime.learn_from_iteration_failure(false, None).expect("task");
    assert_eq!(task.hook_name, "optimization-reflexion");
    assert_eq!(task.reason, "iteration failed immutable objective");
    let explained = runtime.learn_from_iteration_failure(false, Some("worse score".to_string())).expect("task");
    assert_eq!(explained.reason, "worse score");
    assert_eq!(explained.priority, "high");
}
