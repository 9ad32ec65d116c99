use autoloop::config::AppConfig;
use autoloop::providers::chat::{cache_key, finish_chat, hex_string, ChatStep};
use std::collections::hash_map::DefaultHasher;
use std::hash::{Hash, Hasher};
use autoloop::providers::normalize::{compress_text, dedupe_directives, dedupe_text, normalize_messages};
use autoloop::providers::proposal::{join_signals, next_iteration_prompt, proposal_from_reply};
use autoloop::providers::{
    ChatMessage, LlmResponse, McpProviderAdapter, OptimizationSignal, PromptCache, ProviderRegistry, ProviderRouteStage,
    RegisteredProvider, StubProvider, ToolCall,
};

fn user(content: &str) -> ChatMessage {
    ChatMessage { role: "user".to_string(), content: content.to_string() }
}

fn registry() -> ProviderRegistry {
    ProviderRegistry::from_config(&AppConfig::default_config().providers, false)
}

fn reply(text: &str) -> LlmResponse {
    LlmResponse { content: Some(text.to_string()), tool_calls: Vec::new() }
}

#[test]
fn provider_routes_small_and_judge_prompts_to_different_models() {
    let registry = registry();
    let screening = registry.route_for_messages(&[user("say hello")], None);
    let judge = registry.route_for_messages(&[user("Judge route correctness and verifier regression output")], None);

    assert_eq!(screening.stage, ProviderRouteStage::Screening);
    assert_eq!(judge.stage, ProviderRouteStage::Judge);
    assert_ne!(screening.model, judge.model);
}

#[test]
fn routing_rationale_counts_prompt_bytes() {
    let registry = registry();
    let route = registry.route_for_messages(&[user("say hello")], None);
    assert_eq!(route.model, "gpt-4.1-nano");
    assert_eq!(route.rationale, "tiered routing selected model using 9 characters of prompt context");
    assert!(!route.cache_hit);
    let two = registry.route_for_messages(&[user("ab"), user("CD")], None);
    assert_eq!(two.rationale, "tiered routing selected model using 5 characters of prompt context");
}

#[test]
fn planning_words_and_long_prompts_go_to_reasoning() {
    let registry = registry();
    let plan = registry.route_for_messages(&[user("Please PLAN the rollout")], None);
    assert_eq!(plan.stage, ProviderRouteStage::Reasoning);
    assert_eq!(plan.model, "gpt-4.1-mini");
    let long = registry.route_for_messages(&[user(&"x".repeat(1401))], None);
    assert_eq!(long.stage, ProviderRouteStage::Reasoning);
    let edge = registry.route_for_messages(&[user(&"x".repeat(1400))], None);
    assert_eq!(edge.stage, ProviderRouteStage::Screening);
}

#[test]
fn preferred_model_always_wins() {
    let registry = registry();
    let route = registry.route_for_messages(&[user("judge this")], Some("custom-model"));
    assert_eq!(route.stage, ProviderRouteStage::Reasoning);
    assert_eq!(route.model, "custom-model");
    assert_eq!(route.rationale, "explicit preferred model requested");
}

#[test]
fn disabled_tiering_uses_default_model() {
    let mut config = AppConfig::default_config().providers;
    config.enable_tiered_routing = false;
    let registry = ProviderRegistry::from_config(&config, false);
    let route = registry.route_for_messages(&[user("judge this")], None);
    assert_eq!(route.stage, ProviderRouteStage::Reasoning);
    assert_eq!(route.model, "gpt-4.1-mini");
    assert_eq!(route.rationale, "tiered routing disabled");
}

#[test]
fn default_config_registers_stub_fallback_and_mcp_adapter() {
    let registry = registry();
    assert_eq!(registry.len(), 2);
    assert_eq!(registry.default_provider(), "openai-compatible");
    assert!(registry.validate().is_ok());
    let fallback = registry.provenance("openai-compatible").expect("provenance");
    assert_eq!(fallback.source, "stub-fallback");
    assert_eq!(fallback.version_ref, "stub");
    assert!(fallback.trusted);
    let mcp = registry.provenance("mcp:local-mcp").expect("mcp provenance");
    assert_eq!(mcp.source, "mcp://local-mcp");
    assert_eq!(mcp.version_ref, "adapter-v1");
    match registry.get("mcp:local-mcp") {
        Some(RegisteredProvider::Mcp(adapter)) => assert_eq!(adapter.name(), "mcp:local-mcp"),
        _ => panic!("mcp adapter missing"),
    }
    assert!(registry.get("missing").is_none());
}

#[test]
fn ready_openai_provider_is_trusted_only_over_https() {
    let mut config = AppConfig::default_config().providers;
    let trusted = ProviderRegistry::from_config(&config, true);
    assert!(matches!(trusted.get("openai-compatible"), Some(RegisteredProvider::OpenAiCompatible)));
    assert_eq!(trusted.provenance("openai-compatible").unwrap().version_ref, "openai-compatible-http");
    assert!(trusted.validate().is_ok());

    config.api_base_url = "http://localhost:8080/v1".to_string();
    let untrusted = ProviderRegistry::from_config(&config, true);
    assert_eq!(
        untrusted.validate().unwrap_err(),
        "default provider 'openai-compatible' is not trusted by provenance policy"
    );
}

#[test]
fn registry_validation_reports_each_problem() {
    let mut config = AppConfig::default_config().providers;
    config.builtin = Vec::new();
    config.mcp_servers = Vec::new();
    let empty = ProviderRegistry::from_config(&config, false);
    assert_eq!(empty.len(), 0);
    assert_eq!(empty.default_provider(), "openai-compatible");
    assert_eq!(empty.validate().unwrap_err(), "at least one provider must be registered");

    let mut config = AppConfig::default_config().providers;
    config.default_model = "   ".to_string();
    assert_eq!(
        ProviderRegistry::from_config(&config, false).validate().unwrap_err(),
        "providers.default_model must not be empty"
    );

    let mut config = AppConfig::default_config().providers;
    config.prompt_cache_capacity = 0;
    assert_eq!(
        ProviderRegistry::from_config(&config, false).validate().unwrap_err(),
        "providers.prompt_cache_capacity must be greater than 0"
    );
}

#[test]
fn mcp_only_config_defaults_to_first_server() {
    let mut config = AppConfig::default_config().providers;
    config.builtin = Vec::new();
    config.mcp_servers = vec!["alpha".to_string(), "beta".to_string(), "alpha".to_string()];
    let registry = ProviderRegistry::from_config(&config, false);
    assert_eq!(registry.default_provider(), "mcp:alpha");
    assert_eq!(registry.len(), 2);
    assert!(registry.validate().is_ok());
}

#[test]
fn duplicate_builtins_register_once() {
    let mut config = AppConfig::default_config().providers;
    config.builtin = vec!["echo".to_string(), "echo".to_string()];
    config.mcp_servers = Vec::new();
    let registry = ProviderRegistry::from_config(&config, false);
    assert_eq!(registry.len(), 1);
    assert_eq!(registry.provenance("echo").unwrap().source, "builtin");
}

#[test]
fn stub_provider_echoes_last_user_turn() {
    let stub = StubProvider::new("stub");
    let messages = vec![user("first"), ChatMessage { role: "assistant".to_string(), content: "x".to_string() }, user("hi")];
    let response = stub.chat(&messages, "model-x");
    assert_eq!(response.content.as_deref(), Some("[provider:stub:model-x] hi"));
    assert!(response.tool_calls.is_empty());
    let none = stub.chat(&[ChatMessage { role: "system".to_string(), content: "s".to_string() }], "m");
    assert!(none.content.is_none());
}

#[test]
fn mcp_adapter_is_named_after_its_server() {
    let adapter = McpProviderAdapter::new("local-mcp");
    assert_eq!(adapter.name(), "mcp:local-mcp");
    let response = adapter.chat(&[user("ping")], "m");
    assert_eq!(response.content.as_deref(), Some("[mcp-provider:local-mcp:m] ping"));
}

#[test]
fn dedupe_text_keeps_first_trimmed_lines() {
    assert_eq!(dedupe_text("  a \n\nb\r\na\n"), "a\nb");
    assert_eq!(dedupe_text(""), "");
    assert_eq!(dedupe_text("one"), "one");
}

#[test]
fn dedupe_directives_trims_and_drops_repeats() {
    let input = vec![" x ".to_string(), "".to_string(), "x".to_string(), "y".to_string(), "  ".to_string()];
    assert_eq!(dedupe_directives(&input), vec!["x".to_string(), "y".to_string()]);
}

#[test]
fn compress_text_cuts_to_the_byte_budget() {
    assert_eq!(compress_text("short", 10), "short");
    assert_eq!(compress_text("abcdefghij", 8), "abcde...");
    assert_eq!(compress_text("abcdefghij", 10), "abcdefghij");
    assert_eq!(compress_text("abcd", 2), "...");
}

#[test]
fn normalize_messages_merges_repeated_turns() {
    let messages = vec![user("hi"), user("hi\n hi "), ChatMessage { role: "system".to_string(), content: "hi".to_string() }];
    let normalized = normalize_messages(&messages);
    assert_eq!(normalized.len(), 2);
    assert_eq!(normalized[0].content, "hi");
    assert_eq!(normalized[1].role, "system");
    let long = normalize_messages(&[user(&"z".repeat(2000))]);
    assert_eq!(long[0].content.len(), 1800);
    assert!(long[0].content.ends_with("..."));
}

#[test]
fn prompt_cache_reads_back_and_evicts_oldest() {
    let mut cache = PromptCache::new(2);
    cache.insert("a".to_string(), reply("A"));
    cache.insert("b".to_string(), reply("B"));
    cache.insert("c".to_string(), reply("C"));
    assert_eq!(cache.len(), 2);
    assert!(cache.get("a").is_none());
    assert_eq!(cache.get("c").unwrap().content.as_deref(), Some("C"));
    assert_eq!(cache.get("b").unwrap().content.as_deref(), Some("B"));
    let with_call = LlmResponse {
        content: None,
        tool_calls: vec![ToolCall { id: "1".to_string(), name: "n".to_string(), arguments: "{}".to_string() }],
    };
    cache.insert("c".to_string(), with_call);
    assert_eq!(cache.len(), 1);
    assert!(cache.get("b").is_none());
    assert_eq!(cache.get("c").unwrap().tool_calls.len(), 1);
}

#[test]
fn strategy_prompt_and_proposal() {
    let signals = vec![
        OptimizationSignal { key: "score".to_string(), value: "0.4".to_string() },
        OptimizationSignal { key: "iter".to_string(), value: "3".to_string() },
    ];
    assert_eq!(join_signals(&signals), "score=0.4, iter=3");
    let prompt = next_iteration_prompt("obj", "hist", &signals);
    assert_eq!(prompt.len(), 2);
    assert_eq!(prompt[0].role, "system");
    assert_eq!(prompt[1].content, "Objective: obj\nHistory: hist\nSignals: score=0.4, iter=3");

    let fallback = proposal_from_reply("Last run had a CRASH", &signals, None);
    assert_eq!(
        fallback.hypothesis,
        "Use strategy signals (score=0.4, iter=3) to improve the fixed-budget evaluation outcome."
    );
    assert!(fallback.risk.starts_with("Medium"));
    assert_eq!(fallback.patch_outline.len(), 3);

    let answered = proposal_from_reply("calm", &[], Some("try caching".to_string()));
    assert_eq!(answered.hypothesis, "try caching");
    assert!(answered.risk.starts_with("Low to medium"));
}

#[test]
fn hex_string_writes_lower_case_hexadecimal() {
    assert_eq!(hex_string(0), "0");
    assert_eq!(hex_string(255), "ff");
    assert_eq!(hex_string(4096), "1000");
    assert_eq!(hex_string(u64::MAX), "ffffffffffffffff");
}

#[test]
fn cache_key_hashes_the_model_and_turns() {
    let messages = vec![user("hello"), ChatMessage { role: "assistant".to_string(), content: "hi".to_string() }];
    let mut hasher = DefaultHasher::new();
    "gpt-mini".hash(&mut hasher);
    for message in &messages {
        message.role.hash(&mut hasher);
        message.content.hash(&mut hasher);
    }
    let expected = format!("provider-cache:{:x}", hasher.finish());
    assert_eq!(cache_key(&messages, "gpt-mini"), expected);
    assert_eq!(cache_key(&messages, "gpt-mini"), cache_key(&messages, "gpt-mini"));
    assert_ne!(cache_key(&messages, "gpt-mini"), cache_key(&messages, "gpt-large"));
}

#[test]
fn a_repeated_chat_is_served_from_the_cache() {
    let registry = registry();
    let mut cache = PromptCache::new(8);
    let messages = vec![user("summarize the plan")];
    let (provider, normalized, route, key) = match registry.open_chat(&cache, &messages, None) {
        ChatStep::CallProvider { provider, messages, route, cache_key } => (provider, messages, route, cache_key),
        ChatStep::Served(_) => panic!("an empty cache cannot serve"),
    };
    assert_eq!(provider, registry.default_provider());
    assert_eq!(normalized.len(), 1);
    assert!(!route.cache_hit);
    assert_eq!(key, cache_key(&normalized, &route.model));
    let model = route.model.clone();
    let trace = finish_chat(&mut cache, route, key.clone(), reply("the plan"));
    assert!(!trace.route.cache_hit);
    assert_eq!(trace.cache_key, key);
    match registry.open_chat(&cache, &messages, None) {
        ChatStep::Served(trace) => {
            assert!(trace.route.cache_hit);
            assert_eq!(trace.route.model, model);
            assert_eq!(trace.cache_key, key);
            assert_eq!(trace.response.content, Some("the plan".to_string()));
        },
        ChatStep::CallProvider { .. } => panic!("expected the cached answer"),
    }
}
