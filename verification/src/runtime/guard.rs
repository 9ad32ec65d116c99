use vstd::prelude::*;

use crate::runtime::capability::{
    spec_requires_gate, status_name, trust_name, ApprovalStatus, CapabilityRisk,
    CapabilityScope, CapabilityStatus, ForgedMcpToolManifest, TrustStatus,
};
use crate::runtime::kernel::RuntimeKernel;
use crate::text::{
    chars_of, concat2, concat3, contains_str, decimal, decimal_string, find_chars, first_from,
    has_sub, join_strings, occurs_at, joined, str_equal, string_of_range, texts,
};

verus! {

/// What the runtime guard decides for a tool call.
#[derive(Debug, Clone, Copy, PartialEq, Eq, Structural)]
pub enum GuardDecision {
    Allow,
    RequiresApproval,
    Blocked,
}

/// Filesystem, CPU and memory bounds for a sandboxed run.
#[derive(Debug, Clone)]
pub struct SandboxPolicy {
    pub filesystem_allow: Vec<String>,
    pub filesystem_deny: Vec<String>,
    pub cpu_budget_ms: u64,
    pub memory_budget_mb: u32,
}

/// The guard's decision with its bounds and explanation.
#[derive(Debug, Clone)]
pub struct RuntimeGuardReport {
    pub decision: GuardDecision,
    pub attempts_allowed: u8,
    pub timeout_secs: u64,
    pub reason: String,
    pub breaker_key: String,
    pub sandbox_policy: Option<SandboxPolicy>,
}

/// The decision, attempts, timeout, reason and breaker key of a report.
pub type GuardView = (GuardDecision, u8, u64, Seq<char>, Seq<char>);

/// A report seen as its decision, attempts, timeout, reason and breaker key.
pub open spec fn guard_view(r: RuntimeGuardReport) -> GuardView {
    (r.decision, r.attempts_allowed, r.timeout_secs, r.reason@, r.breaker_key@)
}

/// Directories a capability may touch.
pub open spec fn allow_list(m: ForgedMcpToolManifest) -> Seq<Seq<char>> {
    let base = seq!["."@, "./workspace"@];
    let with_session = if m.scope == CapabilityScope::Session {
        base.push("./workspace/session"@)
    } else {
        base
    };
    match m.working_directory {
        Some(dir) => with_session.push(dir@),
        None => with_session,
    }
}

/// Directories a capability must not touch.
pub open spec fn deny_list(tool_name: Seq<char>, m: ForgedMcpToolManifest) -> Seq<Seq<char>> {
    let base = seq!["./.git"@, "./deploy/secrets"@];
    if m.risk == CapabilityRisk::High || has_sub(tool_name, "deploy"@) {
        base.push("/"@)
    } else {
        base
    }
}

/// The sandbox bounds given to a capability: high-risk capabilities get 15 s of CPU
/// and up to 768 MB, the others 6 s and up to 384 MB, both capped by the kernel's
/// memory limit.
pub open spec fn is_sandbox_policy_for(
    k: RuntimeKernel,
    tool_name: Seq<char>,
    m: ForgedMcpToolManifest,
    p: SandboxPolicy,
) -> bool {
    &&& texts(p.filesystem_allow@) == allow_list(m)
    &&& texts(p.filesystem_deny@) == deny_list(tool_name, m)
    &&& p.cpu_budget_ms == (if m.risk == CapabilityRisk::High { 15_000u64 } else { 6_000u64 })
    &&& p.memory_budget_mb == (if m.risk == CapabilityRisk::High {
        if k.limits.max_memory_mb < 768 { k.limits.max_memory_mb } else { 768u32 }
    } else {
        if k.limits.max_memory_mb < 384 { k.limits.max_memory_mb } else { 384u32 }
    })
}

/// `h` in thousandths, written with two decimals (rounded half up).
pub open spec fn two_decimals(h: u32) -> Seq<char> {
    let hundredths = ((h as nat) + 5) / 10;
    decimal(hundredths / 100) + "."@ + (if hundredths % 100 < 10 {
        "0"@
    } else {
        Seq::empty()
    }) + decimal(hundredths % 100)
}

/// The value behind an optional reference.
pub open spec fn owned<T>(o: Option<&T>) -> Option<T> {
    match o {
        Some(v) => Some(*v),
        None => None,
    }
}

/// The guard's timeout for a capability: 120 s when it declares a success signal,
/// else 90 s.
pub open spec fn guard_timeout(manifest: Option<ForgedMcpToolManifest>) -> u64 {
    match manifest {
        Some(m) => if m.success_signal is Some { 120 } else { 90 },
        None => 90,
    }
}

/// The guard's verdict on a tool call, before circuit state is consulted.
pub open spec fn base_guard(
    k: RuntimeKernel,
    actor_id: Seq<char>,
    tool_name: Seq<char>,
    manifest: Option<ForgedMcpToolManifest>,
) -> GuardView {
    let timeout = guard_timeout(manifest);
    let key = actor_id + ":"@ + tool_name;
    match manifest {
        None => (GuardDecision::Allow, 2, timeout, "runtime guard allows bounded execution"@, key),
        Some(m) => if m.status != CapabilityStatus::Active {
            (GuardDecision::Blocked, 0, timeout, "capability status "@ + status_name(m.status) + " is not runnable"@, key)
        } else if m.approval_status != ApprovalStatus::Verified {
            (GuardDecision::RequiresApproval, 0, timeout, "capability is not verified yet"@, key)
        } else if m.trust_status != TrustStatus::Trusted {
            (
                GuardDecision::Blocked,
                0,
                timeout,
                "capability trust status "@ + trust_name(m.trust_status) + " is not trusted ("@
                    + joined(texts(m.trust_findings@), "; "@) + ")"@,
                key,
            )
        } else if m.health_score < 400 {
            (
                GuardDecision::Blocked,
                0,
                timeout,
                "capability health "@ + two_decimals(m.health_score) + " is below runtime minimum"@,
                key,
            )
        } else if spec_requires_gate(m) || (k.mcp.allow_network_tools && m.risk == CapabilityRisk::High) {
            (GuardDecision::RequiresApproval, 1, timeout, "capability risk requires approval gate"@, key)
        } else {
            (GuardDecision::Allow, 2, timeout, "runtime guard allows bounded execution"@, key)
        },
    }
}

/// The MCP server a tool belongs to: the capability's server, or the second segment
/// of a tool named `mcp::<server>::...`.
pub open spec fn server_of(tool_name: Seq<char>, manifest: Option<ForgedMcpToolManifest>) -> Option<Seq<char>> {
    match manifest {
        Some(m) => Some(m.server@),
        None => match first_from(tool_name, "::"@, 0) {
            None => None,
            Some(i) => if tool_name.subrange(0, i) == "mcp"@ {
                let rest = tool_name.subrange(i + 2, tool_name.len() as int);
                Some(
                    match first_from(rest, "::"@, 0) {
                        None => rest,
                        Some(j) => rest.subrange(0, j),
                    },
                )
            } else {
                None
            },
        },
    }
}

fn two_decimals_string(h: u32) -> (r: String)
    ensures
        r@ == two_decimals(h),
{
    let hundredths: u64 = ((h as u64) + 5) / 10;
    let whole = decimal_string(hundredths / 100);
    let frac = hundredths % 100;
    let mut r = concat2(whole.as_str(), ".");
    if frac < 10 {
        r.append("0");
    }
    let tail = decimal_string(frac);
    r.append(tail.as_str());
    r
}

/// The MCP server a tool belongs to: the capability's server, or the second segment
/// of a tool named `mcp::<server>::...`.
pub fn server_name_for(tool_name: &str, manifest: Option<&ForgedMcpToolManifest>) -> (r: Option<String>)
    ensures
        match r {
            Some(s) => server_of(tool_name@, owned(manifest)) == Some(s@),
            None => server_of(tool_name@, owned(manifest)) is None,
        },
{
    if let Some(m) = manifest {
        return Some(m.server.clone());
    }
    let t = chars_of(tool_name);
    let sep = chars_of("::");
    proof {
        reveal_strlit("::");
        assert(sep@.len() == 2);
    }
    match find_chars(&t, &sep) {
        None => None,
        Some(i) => {
            let head = string_of_range(&t, 0, i);
            assert(occurs_at(t@, sep@, i as int));
            assert(i + 2 <= t.len());
            if str_equal(head.as_str(), "mcp") {
                let rest = string_of_range(&t, i + 2, t.len());
                let r = chars_of(rest.as_str());
                match find_chars(&r, &sep) {
                    None => Some(rest),
                    Some(j) => Some(string_of_range(&r, 0, j)),
                }
            } else {
                None
            }
        },
    }
}

impl RuntimeKernel {
    /// Sandbox bounds for running a capability.
    pub fn sandbox_policy_for(&self, tool_name: &str, manifest: &ForgedMcpToolManifest) -> (p: SandboxPolicy)
        ensures
            is_sandbox_policy_for(*self, tool_name@, *manifest, p),
    {
        let mut allow: Vec<String> = Vec::new();
        allow.push(String::from_str("."));
        allow.push(String::from_str("./workspace"));
        if manifest.scope == CapabilityScope::Session {
            allow.push(String::from_str("./workspace/session"));
        }
        if let Some(dir) = &manifest.working_directory {
            allow.push(dir.clone());
        }
        let mut deny: Vec<String> = Vec::new();
        deny.push(String::from_str("./.git"));
        deny.push(String::from_str("./deploy/secrets"));
        if manifest.risk == CapabilityRisk::High || contains_str(tool_name, "deploy") {
            deny.push(String::from_str("/"));
        }
        let high = manifest.risk == CapabilityRisk::High;
        let cap: u32 = if high { 768 } else { 384 };
        let memory = if self.limits.max_memory_mb < cap { self.limits.max_memory_mb } else { cap };
        let p = SandboxPolicy {
            filesystem_allow: allow,
            filesystem_deny: deny,
            cpu_budget_ms: if high { 15_000 } else { 6_000 },
            memory_budget_mb: memory,
        };
        assert(texts(p.filesystem_allow@) =~= allow_list(*manifest));
        assert(texts(p.filesystem_deny@) =~= deny_list(tool_name@, *manifest));
        p
    }

    fn guard_report(
        &self,
        decision: GuardDecision,
        attempts: u8,
        timeout: u64,
        reason: String,
        breaker_key: &String,
        tool_name: &str,
        manifest: Option<&ForgedMcpToolManifest>,
    ) -> (r: RuntimeGuardReport)
        ensures
            guard_view(r) == (decision, attempts, timeout, reason@, breaker_key@),
            match manifest {
                Some(m) => r.sandbox_policy is Some && is_sandbox_policy_for(*self, tool_name@, *m, r.sandbox_policy->0),
                None => r.sandbox_policy is None,
            },
    {
        let sandbox_policy = match manifest {
            Some(m) => Some(self.sandbox_policy_for(tool_name, m)),
            None => None,
        };
        RuntimeGuardReport {
            decision,
            attempts_allowed: attempts,
            timeout_secs: timeout,
            reason,
            breaker_key: breaker_key.clone(),
            sandbox_policy,
        }
    }

    /// The guard's decision on a tool call: inactive, untrusted or unhealthy (below
    /// 0.40) capabilities are blocked, unverified ones and those whose risk needs a
    /// gate require approval, and everything else may run with two attempts.
    pub fn guard_tool_execution(
        &self,
        actor_id: &str,
        tool_name: &str,
        manifest: Option<&ForgedMcpToolManifest>,
    ) -> (r: RuntimeGuardReport)
        ensures
            guard_view(r) == base_guard(*self, actor_id@, tool_name@, owned(manifest)),
            match manifest {
                Some(m) => r.sandbox_policy is Some && is_sandbox_policy_for(*self, tool_name@, *m, r.sandbox_policy->0),
                None => r.sandbox_policy is None,
            },
    {
        let timeout: u64 = match manifest {
            Some(m) => if m.success_signal.is_some() { 120 } else { 90 },
            None => 90,
        };
        let key = concat3(actor_id, ":", tool_name);
        if let Some(m) = manifest {
            if m.status != CapabilityStatus::Active {
                let reason = concat3("capability status ", m.status.name(), " is not runnable");
                return self.guard_report(GuardDecision::Blocked, 0, timeout, reason, &key, tool_name, manifest);
            }
            if m.approval_status != ApprovalStatus::Verified {
                let reason = String::from_str("capability is not verified yet");
                return self.guard_report(GuardDecision::RequiresApproval, 0, timeout, reason, &key, tool_name, manifest);
            }
            if m.trust_status != TrustStatus::Trusted {
                let findings = join_strings(&m.trust_findings, "; ");
                let head = concat3("capability trust status ", m.trust_status.name(), " is not trusted (");
                let reason = concat3(head.as_str(), findings.as_str(), ")");
                return self.guard_report(GuardDecision::Blocked, 0, timeout, reason, &key, tool_name, manifest);
            }
            if m.health_score < 400 {
                let health = two_decimals_string(m.health_score);
                let reason = concat3("capability health ", health.as_str(), " is below runtime minimum");
                return self.guard_report(GuardDecision::Blocked, 0, timeout, reason, &key, tool_name, manifest);
            }
            if m.requires_gate() || (self.mcp.allow_network_tools && m.risk == CapabilityRisk::High) {
                let reason = String::from_str("capability risk requires approval gate");
                return self.guard_report(GuardDecision::RequiresApproval, 1, timeout, reason, &key, tool_name, manifest);
            }
        }
        let reason = String::from_str("runtime guard allows bounded execution");
        self.guard_report(GuardDecision::Allow, 2, timeout, reason, &key, tool_name, manifest)
    }
}

/// A capability that is not active, not trusted, or below the health minimum is never
/// allowed to run, and an unverified one always waits for approval.
pub proof fn law_guard_never_allows_ungoverned(
    k: RuntimeKernel,
    actor_id: Seq<char>,
    tool_name: Seq<char>,
    m: ForgedMcpToolManifest,
)
    ensures
        (m.status != CapabilityStatus::Active || (m.approval_status == ApprovalStatus::Verified
            && (m.trust_status != TrustStatus::Trusted || m.health_score < 400)))
            ==> base_guard(k, actor_id, tool_name, Some(m)).0 == GuardDecision::Blocked,
        (m.status == CapabilityStatus::Active && m.approval_status != ApprovalStatus::Verified)
            ==> base_guard(k, actor_id, tool_name, Some(m)).0 == GuardDecision::RequiresApproval,
        base_guard(k, actor_id, tool_name, Some(m)).0 == GuardDecision::Allow ==> (m.status
            == CapabilityStatus::Active && m.approval_status == ApprovalStatus::Verified
            && m.trust_status == TrustStatus::Trusted && m.health_score >= 400 && m.risk
            != CapabilityRisk::High),
        base_guard(k, actor_id, tool_name, Some(m)).0 != GuardDecision::Allow
            ==> base_guard(k, actor_id, tool_name, Some(m)).1 <= 1,
{
}

} // verus!
