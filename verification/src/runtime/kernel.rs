use vstd::prelude::*;

use crate::config::{RuntimeConfig, RuntimeGateMode};
use crate::contracts::version::CONTRACT_VERSION;

verus! {

/// Parallelism and memory limits.
#[derive(Debug, Clone, Copy)]
pub struct ResourceLimits {
    pub max_parallel_agents: usize,
    pub max_memory_mb: u32,
}

/// MCP switches and circuit-breaker settings.
#[derive(Debug, Clone, Copy)]
pub struct McpExecutionProfile {
    pub enabled: bool,
    pub allow_network_tools: bool,
    pub tool_breaker_failure_threshold: u32,
    pub tool_breaker_cooldown_ms: u64,
    pub mcp_breaker_failure_threshold: u32,
    pub mcp_breaker_cooldown_ms: u64,
}

/// The runtime kernel's settings.
///
/// `gate_enforce_ratio` is the enforced share of canary tasks in basis points
/// (0..=10000).
#[derive(Debug, Clone)]
pub struct RuntimeKernel {
    pub limits: ResourceLimits,
    pub mcp: McpExecutionProfile,
    pub gate_mode: RuntimeGateMode,
    pub gate_enforce_ratio: i64,
    pub rollback_contract_version: Option<String>,
    pub budget_enforced: bool,
    pub default_budget_micros: u64,
    pub quota_window_ms: u64,
    pub quota_window_budget_micros: u64,
}

/// `v` limited to `lo..=hi`.
pub open spec fn clamp_i64(v: i64, lo: i64, hi: i64) -> i64 {
    if v < lo {
        lo
    } else if v > hi {
        hi
    } else {
        v
    }
}

/// The first check that a kernel fails, with its message, or `None` when it is valid.
pub open spec fn kernel_invalid_reason(k: RuntimeKernel) -> Option<Seq<char>> {
    if k.limits.max_parallel_agents == 0 {
        Some("runtime.max_parallel_agents must be greater than 0"@)
    } else if k.limits.max_memory_mb == 0 {
        Some("runtime.max_memory_mb must be greater than 0"@)
    } else if k.mcp.tool_breaker_failure_threshold == 0 {
        Some("runtime.tool_breaker_failure_threshold must be greater than 0"@)
    } else if k.mcp.mcp_breaker_failure_threshold == 0 {
        Some("runtime.mcp_breaker_failure_threshold must be greater than 0"@)
    } else if !(0 <= k.gate_enforce_ratio <= 10000) {
        Some("runtime.gate_enforce_ratio must be within [0.0, 1.0]"@)
    } else if k.default_budget_micros == 0 {
        Some("runtime.default_budget_micros must be greater than 0"@)
    } else if k.quota_window_ms == 0 {
        Some("runtime.quota_window_ms must be greater than 0"@)
    } else if k.quota_window_budget_micros == 0 {
        Some("runtime.quota_window_budget_micros must be greater than 0"@)
    } else {
        None
    }
}

/// 64-bit FNV-1a hash of a byte sequence.
pub open spec fn fnv1a(bytes: Seq<u8>) -> u64
    decreases bytes.len(),
{
    if bytes.len() == 0 {
        1469598103934665603u64
    } else {
        (fnv1a(bytes.drop_last()) ^ (bytes.last() as u64)).wrapping_mul(1099511628211u64)
    }
}

/// The canary bucket (0..10000) of a session/task pair: the FNV-1a hash of the
/// UTF-8 bytes of `"{session}:{task}"`, modulo 10000.
pub open spec fn canary_bucket(session_id: Seq<char>, task_id: Seq<char>) -> u64 {
    fnv1a(vstd::utf8::encode_utf8(session_id + ":"@ + task_id)) % 10000
}

/// Whether guard decisions are enforced for this session/task pair.
pub open spec fn gate_enforced(k: RuntimeKernel, session_id: Seq<char>, task_id: Seq<char>) -> bool {
    match k.gate_mode {
        RuntimeGateMode::Shadow => false,
        RuntimeGateMode::Full => true,
        RuntimeGateMode::Canary => (canary_bucket(session_id, task_id) as int) < (k.gate_enforce_ratio as int),
    }
}

/// The contract version stamped on runtime events.
pub open spec fn effective_version(k: RuntimeKernel) -> Seq<char> {
    match k.rollback_contract_version {
        Some(v) => v@,
        None => CONTRACT_VERSION@,
    }
}

impl RuntimeKernel {
    /// A kernel with the configured limits; the canary share is clamped to `0..=10000`.
    pub fn from_config(config: &RuntimeConfig) -> (k: RuntimeKernel)
        ensures
            k.limits.max_parallel_agents == config.max_parallel_agents,
            k.limits.max_memory_mb == config.max_memory_mb,
            k.mcp.enabled == config.mcp_enabled,
            k.mcp.allow_network_tools == config.allow_network_tools,
            k.mcp.tool_breaker_failure_threshold == config.tool_breaker_failure_threshold,
            k.mcp.tool_breaker_cooldown_ms == config.tool_breaker_cooldown_ms,
            k.mcp.mcp_breaker_failure_threshold == config.mcp_breaker_failure_threshold,
            k.mcp.mcp_breaker_cooldown_ms == config.mcp_breaker_cooldown_ms,
            k.gate_mode == config.gate_mode,
            k.gate_enforce_ratio == clamp_i64(config.gate_enforce_ratio, 0, 10000),
            k.rollback_contract_version == config.rollback_contract_version,
            k.budget_enforced == config.budget_enforced,
            k.default_budget_micros == config.default_budget_micros,
            k.quota_window_ms == config.quota_window_ms,
            k.quota_window_budget_micros == config.quota_window_budget_micros,
    {
        let ratio = if config.gate_enforce_ratio < 0 {
            0
        } else if config.gate_enforce_ratio > 10000 {
            10000
        } else {
            config.gate_enforce_ratio
        };
        let rollback = match &config.rollback_contract_version {
            Some(v) => Some(v.clone()),
            None => None,
        };
        RuntimeKernel {
            limits: ResourceLimits {
                max_parallel_agents: config.max_parallel_agents,
                max_memory_mb: config.max_memory_mb,
            },
            mcp: McpExecutionProfile {
                enabled: config.mcp_enabled,
                allow_network_tools: config.allow_network_tools,
                tool_breaker_failure_threshold: config.tool_breaker_failure_threshold,
                tool_breaker_cooldown_ms: config.tool_breaker_cooldown_ms,
                mcp_breaker_failure_threshold: config.mcp_breaker_failure_threshold,
                mcp_breaker_cooldown_ms: config.mcp_breaker_cooldown_ms,
            },
            gate_mode: config.gate_mode,
            gate_enforce_ratio: ratio,
            rollback_contract_version: rollback,
            budget_enforced: config.budget_enforced,
            default_budget_micros: config.default_budget_micros,
            quota_window_ms: config.quota_window_ms,
            quota_window_budget_micros: config.quota_window_budget_micros,
        }
    }

    /// Checks the limits; the error names the first one that is violated.
    pub fn validate(&self) -> (r: Result<(), String>)
        ensures
            match kernel_invalid_reason(*self) {
                None => r is Ok,
                Some(msg) => r is Err && r->Err_0@ == msg,
            },
    {
        if self.limits.max_parallel_agents == 0 {
            return Err(String::from_str("runtime.max_parallel_agents must be greater than 0"));
        }
        if self.limits.max_memory_mb == 0 {
            return Err(String::from_str("runtime.max_memory_mb must be greater than 0"));
        }
        if self.mcp.tool_breaker_failure_threshold == 0 {
            return Err(String::from_str("runtime.tool_breaker_failure_threshold must be greater than 0"));
        }
        if self.mcp.mcp_breaker_failure_threshold == 0 {
            return Err(String::from_str("runtime.mcp_breaker_failure_threshold must be greater than 0"));
        }
        if !(0 <= self.gate_enforce_ratio && self.gate_enforce_ratio <= 10000) {
            return Err(String::from_str("runtime.gate_enforce_ratio must be within [0.0, 1.0]"));
        }
        if self.default_budget_micros == 0 {
            return Err(String::from_str("runtime.default_budget_micros must be greater than 0"));
        }
        if self.quota_window_ms == 0 {
            return Err(String::from_str("runtime.quota_window_ms must be greater than 0"));
        }
        if self.quota_window_budget_micros == 0 {
            return Err(String::from_str("runtime.quota_window_budget_micros must be greater than 0"));
        }
        Ok(())
    }

    /// Whether guard decisions are enforced for this session/task pair: never in
    /// shadow mode, always in full mode, and in canary mode for the pairs whose hash
    /// bucket falls below the enforced share.
    pub fn should_enforce_gate(&self, session_id: &str, task_id: &str) -> (b: bool)
        ensures
            b == gate_enforced(*self, session_id@, task_id@),
    {
        match self.gate_mode {
            RuntimeGateMode::Shadow => false,
            RuntimeGateMode::Full => true,
            RuntimeGateMode::Canary => {
                let key = crate::text::concat3(session_id, ":", task_id);
                let bytes = key.as_str().as_bytes();
                let mut hash: u64 = 1469598103934665603u64;
                let mut i: usize = 0;
                while i < bytes.len()
                    invariant
                        i <= bytes@.len(),
                        hash == fnv1a(bytes@.subrange(0, i as int)),
                    decreases bytes@.len() - i,
                {
                    proof {
                        let next = bytes@.subrange(0, i + 1);
                        assert(next.drop_last() =~= bytes@.subrange(0, i as int));
                        assert(next.last() == bytes@[i as int]);
                    }
                    hash = (hash ^ (bytes[i] as u64)).wrapping_mul(1099511628211u64);
                    i = i + 1;
                }
                assert(bytes@.subrange(0, bytes@.len() as int) =~= bytes@);
                let bucket = hash % 10000;
                (bucket as i64) < self.gate_enforce_ratio
            },
        }
    }

    /// The contract version stamped on runtime events: the rollback version when one
    /// is configured, else the current one.
    pub fn effective_contract_version(&self) -> (r: &str)
        ensures
            r@ == effective_version(*self),
    {
        match &self.rollback_contract_version {
            Some(v) => v.as_str(),
            None => CONTRACT_VERSION,
        }
    }
}

/// Shadow mode never enforces and full mode always does, whatever the task; in canary
/// mode a share of 0 enforces nothing and a share of 10000 enforces everything.
pub proof fn law_gate_modes(k: RuntimeKernel, session_id: Seq<char>, task_id: Seq<char>)
    ensures
        k.gate_mode == RuntimeGateMode::Shadow ==> !gate_enforced(k, session_id, task_id),
        k.gate_mode == RuntimeGateMode::Full ==> gate_enforced(k, session_id, task_id),
        (k.gate_mode == RuntimeGateMode::Canary && k.gate_enforce_ratio <= 0) ==> !gate_enforced(k, session_id, task_id),
        (k.gate_mode == RuntimeGateMode::Canary && k.gate_enforce_ratio >= 10000) ==> gate_enforced(k, session_id, task_id),
{
}

/// A kernel built from any configuration has its canary share within `0..=10000`.
pub proof fn law_from_config_ratio_in_range(v: i64)
    ensures
        0 <= clamp_i64(v, 0, 10000) <= 10000,
{
}

} // verus!
