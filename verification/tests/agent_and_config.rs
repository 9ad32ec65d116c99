use autoloop::agent::{
    adaptive_guidance, blocked_request_reply, blocked_tool_reply, default_constraints, default_provider_constraints,
    execution_identity_for, memory_system_prompt, message_step, on_provider_reply, validate_agent_config, AgentAction,
    AgentLoop, MessageAction, MessageEvent, MessageStage,
};
use autoloop::config::{AppConfig, RuntimeGateMode};
use autoloop::contracts::errors::{ContractError, PolicyError};
use autoloop::contracts::version::CONTRACT_VERSION;
use autoloop::providers::{LlmResponse, ToolCall};
use autoloop::session::SessionIdentity;

#[test]
fn default_config_matches_documented_defaults() {
    let config = AppConfig::default_config();
    assert_eq!(config.agent.max_iterations, 12);
    assert_eq!(config.agent.memory_window, 100);
    assert_eq!(config.runtime.gate_mode, RuntimeGateMode::Shadow);
    assert_eq!(config.runtime.gate_enforce_ratio, 2000);
    assert_eq!(config.runtime.default_budget_micros, 5_000_000);
    assert_eq!(config.providers.builtin, vec!["openai-compatible".to_string()]);
    assert_eq!(config.providers.prompt_cache_capacity, 256);
    let via_default: AppConfig = Default::default();
    assert_eq!(via_default.providers.judge_model, "gpt-5");
    assert_eq!(CONTRACT_VERSION, "v1");
}

#[test]
fn agent_config_validation() {
    let mut config = AppConfig::default_config().agent;
    assert!(validate_agent_config(&config).is_ok());
    config.memory_window = 0;
    assert_eq!(validate_agent_config(&config).unwrap_err(), "agent.memory_window must be greater than 0");
    config.max_iterations = 0;
    assert_eq!(validate_agent_config(&config).unwrap_err(), "agent.max_iterations must be greater than 0");
}

#[test]
fn blocked_replies_list_findings() {
    let findings = vec!["secret".to_string(), "shell".to_string()];
    assert_eq!(blocked_request_reply(&findings), "Request blocked by security policy: secret; shell");
    assert_eq!(blocked_tool_reply("exec", &findings), "Tool call 'exec' blocked by security policy: secret; shell");
}

#[test]
fn guidance_is_empty_without_directives() {
    assert_eq!(adaptive_guidance(&Vec::new(), "why"), "");
    let directives = vec!["a".to_string(), "b".to_string()];
    assert_eq!(
        adaptive_guidance(&directives, "because"),
        "\n\n# Adaptive Guidance\n- a\n- b\n\n# Policy Rationale\nbecause"
    );
    assert_eq!(memory_system_prompt("base", "ctx"), "base\n\n# Memory Targets\nctx");
}

#[test]
fn loop_stops_after_its_iteration_limit() {
    let mut agent_loop = AgentLoop::new(2);
    assert!(matches!(agent_loop.start_round(), AgentAction::CallProvider));
    assert!(matches!(agent_loop.start_round(), AgentAction::CallProvider));
    match agent_loop.start_round() {
        AgentAction::Finish(text) => assert_eq!(text, "Agent stopped after reaching the max iteration limit."),
        _ => panic!("expected the loop to stop"),
    }
}

#[test]
fn replies_finish_or_run_tools() {
    let done = on_provider_reply(LlmResponse { content: Some("answer".to_string()), tool_calls: Vec::new() });
    assert!(matches!(done, AgentAction::Finish(ref t) if t == "answer"));
    let empty = on_provider_reply(LlmResponse { content: None, tool_calls: Vec::new() });
    assert!(matches!(empty, AgentAction::Finish(ref t) if t == "No response content."));
    let call = ToolCall { id: "1".to_string(), name: "read_file".to_string(), arguments: "{}".to_string() };
    match on_provider_reply(LlmResponse { content: Some("thinking".to_string()), tool_calls: vec![call] }) {
        AgentAction::RunTools { assistant_note, calls } => {
            assert_eq!(assistant_note.as_deref(), Some("thinking"));
            assert_eq!(calls.len(), 1);
            assert_eq!(calls[0].name, "read_file");
        },
        _ => panic!("expected tool calls"),
    }
}

#[test]
fn execution_identity_comes_from_the_bound_identity() {
    let bound = SessionIdentity {
        tenant_id: "t".to_string(),
        principal_id: "p".to_string(),
        policy_id: "pol".to_string(),
        lease_token: "lease".to_string(),
        expires_at_ms: 1,
    };
    let identity = execution_identity_for(Some(bound), "s").unwrap();
    assert_eq!(identity.tenant_id, "t");
    assert_eq!(identity.lease_token, "lease");
    assert_eq!(execution_identity_for(None, "s1").unwrap_err(), "missing session identity for s1");
}

#[test]
fn agent_task_bounds() {
    let tool = default_constraints();
    assert_eq!(tool.max_retries, 2);
    assert_eq!(tool.max_tokens, 16_000);
    assert_eq!(tool.sandbox_profile, "standard");
    assert_eq!(tool.io_deny_paths, vec!["/etc".to_string(), "/root".to_string()]);
    let provider = default_provider_constraints();
    assert_eq!(provider.max_retries, 1);
    assert_eq!(provider.max_tokens, 8_000);
    assert_eq!(provider.sandbox_profile, "provider");
    assert_eq!(provider.timeout_ms, 120_000);
}

#[test]
fn contract_errors_render_their_kind() {
    let policy = ContractError::Policy(PolicyError { code: "P1".to_string(), message: "denied".to_string() });
    assert_eq!(policy.message(), "policy error [P1]: denied");
    assert_eq!(ContractError::Storage("down".to_string()).message(), "storage error: down");
}

fn bound_identity_value() -> SessionIdentity {
    SessionIdentity {
        tenant_id: "t".to_string(),
        principal_id: "p".to_string(),
        policy_id: "pol".to_string(),
        lease_token: "lease".to_string(),
        expires_at_ms: 1,
    }
}

fn call(name: &str) -> ToolCall {
    ToolCall { id: format!("id-{}", name), name: name.to_string(), arguments: "{}".to_string() }
}

fn to_identity_stage(max_iterations: usize) -> MessageStage {
    let (stage, action) = message_step("s", max_iterations, MessageStage::Start, MessageEvent::Received);
    assert!(matches!(action, MessageAction::ScreenRequest));
    let (stage, action) =
        message_step("s", max_iterations, stage, MessageEvent::Screened { blocked: false, findings: Vec::new() });
    assert!(matches!(action, MessageAction::RecordUser));
    let (stage, action) = message_step("s", max_iterations, stage, MessageEvent::UserRecorded);
    assert!(matches!(action, MessageAction::ResolveIdentity));
    stage
}

#[test]
fn a_blocked_request_is_answered_with_its_refusal_only() {
    let (stage, _) = message_step("s", 4, MessageStage::Start, MessageEvent::Received);
    let findings = vec!["secret detected".to_string(), "shell injection".to_string()];
    let (stage, action) = message_step("s", 4, stage, MessageEvent::Screened { blocked: true, findings });
    assert!(matches!(stage, MessageStage::Done));
    match action {
        MessageAction::Reply(text) => {
            assert_eq!(text, "Request blocked by security policy: secret detected; shell injection")
        },
        other => panic!("expected a reply, got {:?}", other),
    }
}

#[test]
fn a_missing_identity_fails_after_the_user_turn_is_recorded() {
    let stage = to_identity_stage(4);
    let (stage, action) = message_step("s", 4, stage, MessageEvent::IdentityResolved(None));
    assert!(matches!(stage, MessageStage::Done));
    match action {
        MessageAction::Fail(error) => assert_eq!(error, "missing session identity for s"),
        other => panic!("expected a failure, got {:?}", other),
    }
}

#[test]
fn a_message_runs_its_tools_and_completes_with_the_final_reply() {
    let stage = to_identity_stage(4);
    let (stage, action) = message_step("s", 4, stage, MessageEvent::IdentityResolved(Some(bound_identity_value())));
    match &action {
        MessageAction::CallProvider { identity, constraints } => {
            assert_eq!(identity.tenant_id, "t");
            assert_eq!(identity.lease_token, "lease");
            assert_eq!(constraints.max_tokens, 8_000);
            assert_eq!(constraints.sandbox_profile, "provider");
        },
        other => panic!("expected a provider round, got {:?}", other),
    }
    let reply = LlmResponse { content: Some("working".to_string()), tool_calls: vec![call("a"), call("b")] };
    let (stage, action) = message_step("s", 4, stage, MessageEvent::ProviderReplied(Ok(reply)));
    match &action {
        MessageAction::ScreenTool { assistant_note, call } => {
            assert_eq!(assistant_note.as_deref(), Some("working"));
            assert_eq!(call.name, "a");
        },
        other => panic!("expected a screening, got {:?}", other),
    }
    let (stage, action) =
        message_step("s", 4, stage, MessageEvent::Screened { blocked: false, findings: Vec::new() });
    match &action {
        MessageAction::RunTool { call, identity, constraints } => {
            assert_eq!(call.name, "a");
            assert_eq!(identity.principal_id, "p");
            assert_eq!(constraints.max_tokens, 16_000);
            assert_eq!(constraints.sandbox_profile, "standard");
        },
        other => panic!("expected a tool run, got {:?}", other),
    }
    let (stage, action) = message_step("s", 4, stage, MessageEvent::ToolFinished(Ok(())));
    match &action {
        MessageAction::ScreenTool { assistant_note, call } => {
            assert!(assistant_note.is_none());
            assert_eq!(call.name, "b");
        },
        other => panic!("expected a screening, got {:?}", other),
    }
    let (stage, _) = message_step("s", 4, stage, MessageEvent::Screened { blocked: false, findings: Vec::new() });
    let (stage, action) = message_step("s", 4, stage, MessageEvent::ToolFinished(Ok(())));
    assert!(matches!(action, MessageAction::CallProvider { .. }));
    let (stage, action) = message_step("s", 4, stage, MessageEvent::ProviderReplied(Ok(LlmResponse {
        content: None,
        tool_calls: Vec::new(),
    })));
    assert!(matches!(stage, MessageStage::Done));
    match action {
        MessageAction::Complete(text) => assert_eq!(text, "No response content."),
        other => panic!("expected completion, got {:?}", other),
    }
}

#[test]
fn a_blocked_tool_call_ends_the_message_with_its_refusal() {
    let stage = to_identity_stage(4);
    let (stage, _) = message_step("s", 4, stage, MessageEvent::IdentityResolved(Some(bound_identity_value())));
    let reply = LlmResponse { content: None, tool_calls: vec![call("shell")] };
    let (stage, _) = message_step("s", 4, stage, MessageEvent::ProviderReplied(Ok(reply)));
    let (stage, action) = message_step(
        "s",
        4,
        stage,
        MessageEvent::Screened { blocked: true, findings: vec!["dangerous command".to_string()] },
    );
    assert!(matches!(stage, MessageStage::Done));
    match action {
        MessageAction::Reply(text) => {
            assert_eq!(text, "Tool call 'shell' blocked by security policy: dangerous command")
        },
        other => panic!("expected a reply, got {:?}", other),
    }
}

#[test]
fn a_message_stops_at_the_iteration_limit() {
    let stage = to_identity_stage(1);
    let (stage, _) = message_step("s", 1, stage, MessageEvent::IdentityResolved(Some(bound_identity_value())));
    let reply = LlmResponse { content: None, tool_calls: vec![call("a")] };
    let (stage, _) = message_step("s", 1, stage, MessageEvent::ProviderReplied(Ok(reply)));
    let (stage, _) = message_step("s", 1, stage, MessageEvent::Screened { blocked: false, findings: Vec::new() });
    let (stage, action) = message_step("s", 1, stage, MessageEvent::ToolFinished(Ok(())));
    assert!(matches!(stage, MessageStage::Done));
    match action {
        MessageAction::Reply(text) => assert_eq!(text, "Agent stopped after reaching the max iteration limit."),
        other => panic!("expected a reply, got {:?}", other),
    }
}

#[test]
fn a_failed_provider_round_fails_the_message() {
    let stage = to_identity_stage(3);
    let (stage, _) = message_step("s", 3, stage, MessageEvent::IdentityResolved(Some(bound_identity_value())));
    let (stage, action) = message_step("s", 3, stage, MessageEvent::ProviderReplied(Err("timeout".to_string())));
    assert!(matches!(stage, MessageStage::Done));
    assert!(matches!(action, MessageAction::Fail(ref e) if e == "timeout"));
    let (_, action) = message_step("s", 3, MessageStage::Done, MessageEvent::Received);
    assert!(matches!(action, MessageAction::Fail(_)));
}
