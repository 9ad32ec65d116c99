use vstd::prelude::*;

verus! {

/// Application name and workspace root.
#[derive(Debug, Clone)]
pub struct AppSection {
    pub name: String,
    pub workspace_root: String,
}

/// How strictly runtime guard decisions are enforced.
#[derive(Debug, Clone, Copy, PartialEq, Eq, Structural)]
pub enum RuntimeGateMode {
    /// Decisions are observed and recorded, never enforced.
    Shadow,
    /// Decisions are enforced for a deterministic share of tasks.
    Canary,
    /// Every decision is enforced.
    Full,
}

/// Shadow mode, the default for configurations that leave it out.
pub fn default_runtime_gate_mode() -> (m: RuntimeGateMode)
    ensures
        m == RuntimeGateMode::Shadow,
{
    RuntimeGateMode::Shadow
}

/// The enforced share of canary traffic used when a configuration names none, in
/// basis points (2000 = 20%).
pub fn default_runtime_gate_enforce_ratio() -> (r: i64)
    ensures
        r == 2000,
{
    2000
}

/// Budgets are enforced unless a configuration says otherwise.
pub fn default_runtime_budget_enforced() -> (b: bool)
    ensures
        b,
{
    true
}

/// Default per-account budget in micro-units.
pub fn default_runtime_default_budget_micros() -> (v: u64)
    ensures
        v == 5_000_000,
{
    5_000_000
}

/// Default quota window length: one hour.
pub fn default_runtime_quota_window_ms() -> (v: u64)
    ensures
        v == 3_600_000,
{
    3_600_000
}

/// Default budget per quota window in micro-units.
pub fn default_runtime_quota_window_budget_micros() -> (v: u64)
    ensures
        v == 1_000_000,
{
    1_000_000
}

/// Resource limits, breaker thresholds, gate rollout and budget settings.
///
/// `gate_enforce_ratio` is the share of canary tasks whose guard decisions are
/// enforced, in basis points (0 = none, 10000 = all).
#[derive(Debug, Clone)]
pub struct RuntimeConfig {
    pub max_parallel_agents: usize,
    pub max_memory_mb: u32,
    pub mcp_enabled: bool,
    pub allow_network_tools: bool,
    pub tool_breaker_failure_threshold: u32,
    pub tool_breaker_cooldown_ms: u64,
    pub mcp_breaker_failure_threshold: u32,
    pub mcp_breaker_cooldown_ms: u64,
    pub gate_mode: RuntimeGateMode,
    pub gate_enforce_ratio: i64,
    pub rollback_contract_version: Option<String>,
    pub budget_enforced: bool,
    pub default_budget_micros: u64,
    pub quota_window_ms: u64,
    pub quota_window_budget_micros: u64,
}

/// Security profile.
#[derive(Debug, Clone)]
pub struct SecurityConfig {
    pub profile: String,
    pub require_approval_for_exec: bool,
    pub ironclaw_compatible_rules: bool,
}

/// Which memory files are loaded.
#[derive(Debug, Clone)]
pub struct MemoryConfig {
    pub load_identity: bool,
    pub load_memory_md: bool,
    pub load_history_md: bool,
}

/// Vector index used by the learning sidecar.
#[derive(Debug, Clone, Copy, PartialEq, Eq, Structural)]
pub enum LearningIndexKind {
    Flat,
    Hnsw,
}

/// Quantization of cold learning records.
#[derive(Debug, Clone, Copy, PartialEq, Eq, Structural)]
pub enum QuantizationMode {
    /// No quantization.
    Disabled,
    Scalar,
    Product,
    Binary,
}

/// Learning settings. The two ratios are in basis points (10000 = 1.0).
#[derive(Debug, Clone)]
pub struct LearningConfig {
    pub enabled: bool,
    pub sidecar_enabled: bool,
    pub index_kind: LearningIndexKind,
    pub embedding_dimensions: usize,
    pub top_k: usize,
    pub gray_routing_ratio: i64,
    pub routing_takeover_threshold: i64,
    pub hot_window_days: u32,
    pub cold_quantization: QuantizationMode,
}

/// Retrieval-augmentation switches.
#[derive(Debug, Clone)]
pub struct RagConfig {
    pub enable_graph_rag: bool,
    pub enable_first_principles_extraction: bool,
}

/// Backend used for live research.
#[derive(Debug, Clone, Copy, PartialEq, Eq, Structural)]
pub enum ResearchBackend {
    Auto,
    BrowserFetch,
    PlaywrightCli,
    Firecrawl,
    SelfHostedScraper,
    WebFetch,
    Synthetic,
}

/// Research crawler settings.
#[derive(Debug, Clone)]
pub struct ResearchConfig {
    pub enabled: bool,
    pub backend: ResearchBackend,
    pub live_fetch_enabled: bool,
    pub max_queries_per_anchor: usize,
    pub max_candidates_per_query: usize,
    pub prefer_official_sources: bool,
    pub prefer_dynamic_render: bool,
    pub browser_render_url: Option<String>,
    pub browser_session_pool: Vec<String>,
    pub proxy_provider_name: String,
    pub proxy_pool: Vec<String>,
    pub anti_bot_profile: String,
    pub rotate_proxy_per_request: bool,
    pub proxy_request_quota_per_proxy: usize,
    pub proxy_breaker_failure_threshold: usize,
    pub proxy_breaker_cooldown_ms: u64,
    pub playwright_node_binary: String,
    pub playwright_launch_timeout_secs: u64,
    pub firecrawl_api_url: String,
    pub firecrawl_api_key_env: String,
    pub self_hosted_scraper_url: Option<String>,
    pub request_timeout_secs: u64,
    pub retry_attempts: usize,
    pub stability_backoff_ms: u64,
    pub user_agent: String,
}

/// Model providers, tiered routing models and prompt cache size.
#[derive(Debug, Clone)]
pub struct ProviderConfig {
    pub builtin: Vec<String>,
    pub default_model: String,
    pub screening_model: String,
    pub reasoning_model: String,
    pub judge_model: String,
    pub enable_tiered_routing: bool,
    pub prompt_cache_capacity: usize,
    pub api_base_url: String,
    pub api_key_env: String,
    pub request_timeout_secs: u64,
    pub mcp_servers: Vec<String>,
}

/// Builtin tools and MCP servers.
#[derive(Debug, Clone)]
pub struct ToolsConfig {
    pub builtin: Vec<String>,
    pub allow_shell: bool,
    pub mcp_servers: Vec<String>,
}

/// Builtin hooks.
#[derive(Debug, Clone)]
pub struct HooksConfig {
    pub builtin: Vec<String>,
    pub learning_hooks_enabled: bool,
}

/// Observability switches.
#[derive(Debug, Clone)]
pub struct ObservabilityConfig {
    pub enabled: bool,
    pub route_analytics_enabled: bool,
    pub failure_forensics_enabled: bool,
    pub dashboard_enabled: bool,
    pub report_top_k: usize,
}

/// Deployment profile and directories.
#[derive(Debug, Clone)]
pub struct DeploymentConfig {
    pub profile: String,
    pub enable_container_assets: bool,
    pub config_dir: String,
    pub backup_dir: String,
}

/// Agent loop settings.
#[derive(Debug, Clone)]
pub struct AgentConfig {
    pub max_iterations: usize,
    pub memory_window: usize,
    pub system_prompt: String,
}

/// Where the persistence store lives.
#[derive(Debug, Clone, Copy, PartialEq, Eq, Structural)]
pub enum SpacetimeBackend {
    InMemory,
    Remote,
}

/// Persistence store connection settings.
#[derive(Debug, Clone)]
pub struct SpacetimeDbConfig {
    pub enabled: bool,
    pub backend: SpacetimeBackend,
    pub uri: String,
    pub module_name: String,
    pub namespace: String,
    pub pool_size: usize,
}

/// The whole application configuration.
#[derive(Debug, Clone)]
pub struct AppConfig {
    pub app: AppSection,
    pub agent: AgentConfig,
    pub runtime: RuntimeConfig,
    pub security: SecurityConfig,
    pub memory: MemoryConfig,
    pub learning: LearningConfig,
    pub research: ResearchConfig,
    pub rag: RagConfig,
    pub providers: ProviderConfig,
    pub tools: ToolsConfig,
    pub hooks: HooksConfig,
    pub observability: ObservabilityConfig,
    pub deployment: DeploymentConfig,
    pub spacetimedb: SpacetimeDbConfig,
}

/// `v` holds exactly the one text `a`.
pub open spec fn is_list1(v: Seq<String>, a: Seq<char>) -> bool {
    v.len() == 1 && v[0]@ == a
}

/// The runtime section of the default configuration.
pub open spec fn is_default_runtime(r: RuntimeConfig) -> bool {
    &&& r.max_parallel_agents == 4
    &&& r.max_memory_mb == 512
    &&& r.mcp_enabled
    &&& !r.allow_network_tools
    &&& r.tool_breaker_failure_threshold == 3
    &&& r.tool_breaker_cooldown_ms == 180_000
    &&& r.mcp_breaker_failure_threshold == 2
    &&& r.mcp_breaker_cooldown_ms == 300_000
    &&& r.gate_mode == RuntimeGateMode::Shadow
    &&& r.gate_enforce_ratio == 2000
    &&& r.rollback_contract_version is None
    &&& r.budget_enforced
    &&& r.default_budget_micros == 5_000_000
    &&& r.quota_window_ms == 3_600_000
    &&& r.quota_window_budget_micros == 1_000_000
}

/// The provider section of the default configuration.
pub open spec fn is_default_providers(p: ProviderConfig) -> bool {
    &&& is_list1(p.builtin@, "openai-compatible"@)
    &&& p.default_model@ == "gpt-4.1-mini"@
    &&& p.screening_model@ == "gpt-4.1-nano"@
    &&& p.reasoning_model@ == "gpt-4.1-mini"@
    &&& p.judge_model@ == "gpt-5"@
    &&& p.enable_tiered_routing
    &&& p.prompt_cache_capacity == 256
    &&& p.api_base_url@ == "https://api.openai.com/v1"@
    &&& p.api_key_env@ == "OPENAI_API_KEY"@
    &&& p.request_timeout_secs == 60
    &&& is_list1(p.mcp_servers@, "local-mcp"@)
}

/// The research section of the default configuration.
pub open spec fn is_default_research(r: ResearchConfig) -> bool {
    &&& r.enabled
    &&& r.backend == ResearchBackend::Auto
    &&& !r.live_fetch_enabled
    &&& r.max_queries_per_anchor == 3
    &&& r.max_candidates_per_query == 4
    &&& r.prefer_official_sources
    &&& r.prefer_dynamic_render
    &&& r.browser_render_url is None
    &&& is_list1(r.browser_session_pool@, "default-browser-session"@)
    &&& r.proxy_provider_name@ == "local-static-pool"@
    &&& r.proxy_pool@.len() == 0
    &&& r.anti_bot_profile@ == "balanced-stealth"@
    &&& r.rotate_proxy_per_request
    &&& r.proxy_request_quota_per_proxy == 12
    &&& r.proxy_breaker_failure_threshold == 3
    &&& r.proxy_breaker_cooldown_ms == 300_000
    &&& r.playwright_node_binary@ == "node"@
    &&& r.playwright_launch_timeout_secs == 25
    &&& r.firecrawl_api_url@ == "https://api.firecrawl.dev"@
    &&& r.firecrawl_api_key_env@ == "FIRECRAWL_API_KEY"@
    &&& r.self_hosted_scraper_url is None
    &&& r.request_timeout_secs == 20
    &&& r.retry_attempts == 2
    &&& r.stability_backoff_ms == 350
    &&& r.user_agent@ == "autoloop-research/0.1"@
}

/// The default configuration, section by section.
pub open spec fn is_default_config(c: AppConfig) -> bool {
    &&& c.app.name@ == "autoloop"@
    &&& c.app.workspace_root@ == "."@
    &&& c.agent.max_iterations == 12
    &&& c.agent.memory_window == 100
    &&& c.agent.system_prompt@ == "You are AutoLoop, a lightweight autonomous assistant runtime."@
    &&& is_default_runtime(c.runtime)
    &&& c.security.profile@ == "minimal-ironclaw"@
    &&& c.security.require_approval_for_exec
    &&& c.security.ironclaw_compatible_rules
    &&& c.memory.load_identity && c.memory.load_memory_md && !c.memory.load_history_md
    &&& c.learning.enabled && c.learning.sidecar_enabled
    &&& c.learning.index_kind == LearningIndexKind::Flat
    &&& c.learning.embedding_dimensions == 128
    &&& c.learning.top_k == 4
    &&& c.learning.gray_routing_ratio == 2000
    &&& c.learning.routing_takeover_threshold == 20000
    &&& c.learning.hot_window_days == 14
    &&& c.learning.cold_quantization == QuantizationMode::Scalar
    &&& is_default_research(c.research)
    &&& c.rag.enable_graph_rag && c.rag.enable_first_principles_extraction
    &&& is_default_providers(c.providers)
    &&& c.tools.builtin@.len() == 3
    &&& c.tools.builtin@[0]@ == "read_file"@
    &&& c.tools.builtin@[1]@ == "write_file"@
    &&& c.tools.builtin@[2]@ == "web_fetch"@
    &&& !c.tools.allow_shell
    &&& is_list1(c.tools.mcp_servers@, "local-mcp"@)
    &&& is_list1(c.hooks.builtin@, "self-learn"@)
    &&& c.hooks.learning_hooks_enabled
    &&& c.observability.enabled && c.observability.route_analytics_enabled
    &&& c.observability.failure_forensics_enabled && c.observability.dashboard_enabled
    &&& c.observability.report_top_k == 8
    &&& c.deployment.profile@ == "production-ready"@
    &&& c.deployment.enable_container_assets
    &&& c.deployment.config_dir@ == "deploy/config"@
    &&& c.deployment.backup_dir@ == "deploy/backup"@
    &&& c.spacetimedb.enabled
    &&& c.spacetimedb.backend == SpacetimeBackend::InMemory
    &&& c.spacetimedb.uri@ == "http://spacetimedb:3000"@
    &&& c.spacetimedb.module_name@ == "autoloop_core"@
    &&& c.spacetimedb.namespace@ == "autoloop"@
    &&& c.spacetimedb.pool_size == 8
}

fn text(s: &str) -> (r: String)
    ensures
        r@ == s@,
{
    String::from_str(s)
}

fn list1(s: &str) -> (r: Vec<String>)
    ensures
        is_list1(r@, s@),
{
    let mut v: Vec<String> = Vec::new();
    v.push(text(s));
    v
}

impl AppConfig {
    /// The built-in configuration used when no file is given.
    pub fn default_config() -> (c: AppConfig)
        ensures
            is_default_config(c),
    {
        let mut tool_builtin: Vec<String> = Vec::new();
        tool_builtin.push(text("read_file"));
        tool_builtin.push(text("write_file"));
        tool_builtin.push(text("web_fetch"));
        AppConfig {
            app: AppSection { name: text("autoloop"), workspace_root: text(".") },
            agent: AgentConfig {
                max_iterations: 12,
                memory_window: 100,
                system_prompt: text("You are AutoLoop, a lightweight autonomous assistant runtime."),
            },
            runtime: RuntimeConfig {
                max_parallel_agents: 4,
                max_memory_mb: 512,
                mcp_enabled: true,
                allow_network_tools: false,
                tool_breaker_failure_threshold: 3,
                tool_breaker_cooldown_ms: 180_000,
                mcp_breaker_failure_threshold: 2,
                mcp_breaker_cooldown_ms: 300_000,
                gate_mode: RuntimeGateMode::Shadow,
                gate_enforce_ratio: 2000,
                rollback_contract_version: None,
                budget_enforced: true,
                default_budget_micros: 5_000_000,
                quota_window_ms: 3_600_000,
                quota_window_budget_micros: 1_000_000,
            },
            security: SecurityConfig {
                profile: text("minimal-ironclaw"),
                require_approval_for_exec: true,
                ironclaw_compatible_rules: true,
            },
            memory: MemoryConfig { load_identity: true, load_memory_md: true, load_history_md: false },
            learning: LearningConfig {
                enabled: true,
                sidecar_enabled: true,
                index_kind: LearningIndexKind::Flat,
                embedding_dimensions: 128,
                top_k: 4,
                gray_routing_ratio: 2000,
                routing_takeover_threshold: 20000,
                hot_window_days: 14,
                cold_quantization: QuantizationMode::Scalar,
            },
            research: ResearchConfig {
                enabled: true,
                backend: ResearchBackend::Auto,
                live_fetch_enabled: false,
                max_queries_per_anchor: 3,
                max_candidates_per_query: 4,
                prefer_official_sources: true,
                prefer_dynamic_render: true,
                browser_render_url: None,
                browser_session_pool: list1("default-browser-session"),
                proxy_provider_name: text("local-static-pool"),
                proxy_pool: Vec::new(),
                anti_bot_profile: text("balanced-stealth"),
                rotate_proxy_per_request: true,
                proxy_request_quota_per_proxy: 12,
                proxy_breaker_failure_threshold: 3,
                proxy_breaker_cooldown_ms: 300_000,
                playwright_node_binary: text("node"),
                playwright_launch_timeout_secs: 25,
                firecrawl_api_url: text("https://api.firecrawl.dev"),
                firecrawl_api_key_env: text("FIRECRAWL_API_KEY"),
                self_hosted_scraper_url: None,
                request_timeout_secs: 20,
                retry_attempts: 2,
                stability_backoff_ms: 350,
                user_agent: text("autoloop-research/0.1"),
            },
            rag: RagConfig { enable_graph_rag: true, enable_first_principles_extraction: true },
            providers: ProviderConfig {
                builtin: list1("openai-compatible"),
                default_model: text("gpt-4.1-mini"),
                screening_model: text("gpt-4.1-nano"),
                reasoning_model: text("gpt-4.1-mini"),
                judge_model: text("gpt-5"),
                enable_tiered_routing: true,
                prompt_cache_capacity: 256,
                api_base_url: text("https://api.openai.com/v1"),
                api_key_env: text("OPENAI_API_KEY"),
                request_timeout_secs: 60,
                mcp_servers: list1("local-mcp"),
            },
            tools: ToolsConfig { builtin: tool_builtin, allow_shell: false, mcp_servers: list1("local-mcp") },
            hooks: HooksConfig { builtin: list1("self-learn"), learning_hooks_enabled: true },
            observability: ObservabilityConfig {
                enabled: true,
                route_analytics_enabled: true,
                failure_forensics_enabled: true,
                dashboard_enabled: true,
                report_top_k: 8,
            },
            deployment: DeploymentConfig {
                profile: text("production-ready"),
                enable_container_assets: true,
                config_dir: text("deploy/config"),
                backup_dir: text("deploy/backup"),
            },
            spacetimedb: SpacetimeDbConfig {
                enabled: true,
                backend: SpacetimeBackend::InMemory,
                uri: text("http://spacetimedb:3000"),
                module_name: text("autoloop_core"),
                namespace: text("autoloop"),
                pool_size: 8,
            },
        }
    }
}

impl Default for AppConfig {
    fn default() -> (c: AppConfig)
        ensures
            is_default_config(c),
    {
        AppConfig::default_config()
    }
}

} // verus!
