use autoloop::session::signal::WorkflowSignal;
use autoloop::session::state::WorkflowState;
use autoloop::session::transition::next_state;
use autoloop::session::{Session, SessionIdentity, SessionStore};
use autoloop::{bound_identity, normalize_anchor, plan_default_identity, session_key, IdentityPlan, DEFAULT_LEASE_TTL_MS};

fn identity(tenant: &str) -> SessionIdentity {
    SessionIdentity {
        tenant_id: tenant.to_string(),
        principal_id: "principal".to_string(),
        policy_id: "policy".to_string(),
        lease_token: "lease".to_string(),
        expires_at_ms: 10,
    }
}

#[test]
fn happy_path_walks_the_workflow_to_closed() {
    let mut state = WorkflowState::Intake;
    for signal in [
        WorkflowSignal::IntentReceived,
        WorkflowSignal::PolicyApproved,
        WorkflowSignal::PlanCommitted,
        WorkflowSignal::TaskScheduled,
        WorkflowSignal::ExecutionStarted,
        WorkflowSignal::VerifyPassed,
        WorkflowSignal::VerifyPassed,
    ] {
        state = next_state(state, signal).expect("valid transition");
    }
    assert_eq!(state, WorkflowState::Closed);
}

#[test]
fn failures_and_blocks_route_back() {
    assert_eq!(next_state(WorkflowState::Executing, WorkflowSignal::ExecutionFailed).unwrap(), WorkflowState::Planned);
    assert_eq!(next_state(WorkflowState::Executing, WorkflowSignal::RuntimeBlocked).unwrap(), WorkflowState::Blocked);
    assert_eq!(next_state(WorkflowState::Blocked, WorkflowSignal::PolicyApproved).unwrap(), WorkflowState::Planned);
    assert_eq!(next_state(WorkflowState::Verifying, WorkflowSignal::VerifyRejected).unwrap(), WorkflowState::Planned);
    assert_eq!(next_state(WorkflowState::Closed, WorkflowSignal::VerifyRejected).unwrap(), WorkflowState::Planned);
}

#[test]
fn closed_signal_closes_from_any_state() {
    for state in [
        WorkflowState::Intake,
        WorkflowState::PolicyReview,
        WorkflowState::Planned,
        WorkflowState::Scheduled,
        WorkflowState::Executing,
        WorkflowState::Verifying,
        WorkflowState::Closed,
        WorkflowState::Blocked,
    ] {
        assert_eq!(next_state(state, WorkflowSignal::Closed).unwrap(), WorkflowState::Closed);
    }
}

#[test]
fn invalid_transition_is_reported() {
    let error = next_state(WorkflowState::Intake, WorkflowSignal::VerifyPassed).unwrap_err();
    assert_eq!(error.from, WorkflowState::Intake);
    assert_eq!(error.signal, WorkflowSignal::VerifyPassed);
    assert_eq!(error.message(), "invalid workflow transition: Intake --(VerifyPassed)-> ?");
}

#[test]
fn runtime_block_leads_to_blocked_from_every_state() {
    assert_eq!(next_state(WorkflowState::Intake, WorkflowSignal::RuntimeBlocked).unwrap(), WorkflowState::Blocked);
    assert_eq!(next_state(WorkflowState::Verifying, WorkflowSignal::RuntimeBlocked).unwrap(), WorkflowState::Blocked);
    assert_eq!(next_state(WorkflowState::Blocked, WorkflowSignal::RuntimeBlocked).unwrap(), WorkflowState::Blocked);
    assert_eq!(next_state(WorkflowState::Closed, WorkflowSignal::RuntimeBlocked).unwrap(), WorkflowState::Blocked);
}

#[test]
fn session_keeps_only_the_recent_window() {
    let mut session = Session::new("s");
    session.push("user", "one");
    session.push("assistant", "two");
    session.push("user", "three");
    let recent = session.recent_history(2);
    assert_eq!(recent.len(), 2);
    assert_eq!(recent[0].content, "two");
    assert_eq!(recent[1].content, "three");
    assert_eq!(session.recent_history(10).len(), 3);
    assert!(session.recent_history(0).is_empty());
}

#[test]
fn store_appends_per_session_and_formats_tool_turns() {
    let mut store = SessionStore::new(2);
    store.append_user_message("a", "hello");
    store.append_tool_message("a", "read_file", "contents");
    store.append_assistant_message("b", "other");
    let history = store.history("a");
    assert_eq!(history.len(), 2);
    assert_eq!(history[0].role, "user");
    assert_eq!(history[1].role, "tool");
    assert_eq!(history[1].content, "read_file: contents");
    store.append_assistant_message("a", "done");
    let window = store.history("a");
    assert_eq!(window.len(), 2);
    assert_eq!(window[1].content, "done");
    assert_eq!(store.history("b").len(), 1);
    assert!(store.history("unknown").is_empty());
}

#[test]
fn bound_identity_reads_back() {
    let mut store = SessionStore::new(4);
    assert!(store.identity("s").is_none());
    store.bind_identity("s", identity("t1"));
    store.bind_identity("s", identity("t2"));
    assert_eq!(store.identity("s").unwrap().tenant_id, "t2");
    assert!(store.identity("other").is_none());
}

#[test]
fn session_key_keeps_ascii_alphanumerics_and_dashes() {
    assert_eq!(session_key("agent-session:42/é!"), "agent-session42");
    assert_eq!(session_key(""), "");
}

#[test]
fn anchors_get_their_prefix_once() {
    assert_eq!(normalize_anchor("spacetimedb"), "anchor:spacetimedb");
    assert_eq!(normalize_anchor("anchor:spacetimedb"), "anchor:spacetimedb");
}

#[test]
fn live_identity_is_reused_and_expired_one_reissued() {
    match plan_default_identity(Some(identity("t")), "s1", 5) {
        IdentityPlan::Reuse(i) => assert_eq!(i.tenant_id, "t"),
        _ => panic!("expected reuse"),
    }
    match plan_default_identity(Some(identity("t")), "s1", 10) {
        IdentityPlan::Issue { tenant_id, principal_id, policy_id, lease_ttl_ms } => {
            assert_eq!(tenant_id, "tenant:default");
            assert_eq!(principal_id, "principal:s1");
            assert_eq!(policy_id, "policy:default");
            assert_eq!(lease_ttl_ms, DEFAULT_LEASE_TTL_MS);
        },
        _ => panic!("expected a new identity"),
    }
    let bound = bound_identity("t".to_string(), "p".to_string(), "pol".to_string(), "lease".to_string(), u64::MAX - 1, 10);
    assert_eq!(bound.expires_at_ms, u64::MAX);
}
