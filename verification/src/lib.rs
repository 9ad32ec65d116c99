//! Governed agent runtime: workflow state machine, session memory, provider routing,
//! runtime guard, circuit breakers, budget accounting and degrade/recovery planning.
pub mod agent;
pub mod config;
pub mod contracts;
pub mod knowledge;
pub mod providers;
pub mod runtime;
pub mod session;
pub mod text;

use vstd::prelude::*;

use crate::text::{concat2, push_char, starts_with_str};

verus! {

/// The knowledge graph as the dashboard shows it.
#[derive(Debug, Clone)]
pub struct DashboardGraphLens {
    pub entities: usize,
    pub relationships: usize,
    pub communities: usize,
    pub forged_capability_count: usize,
    pub top_entities: Vec<String>,
}

/// What a bootstrap found registered.
#[derive(Debug)]
pub struct BootstrapReport {
    pub app_name: String,
    pub provider_count: usize,
    pub tool_count: usize,
    pub hook_count: usize,
    pub memory_targets: usize,
    pub rag_strategies: usize,
}

/// A character that may stand in a storage key: an ASCII letter or digit, or `-`.
pub open spec fn key_char(c: char) -> bool {
    ('a' <= c && c <= 'z') || ('A' <= c && c <= 'Z') || ('0' <= c && c <= '9') || c == '-'
}

/// The session id with every character dropped that may not stand in a key.
pub open spec fn session_key_of(session_id: Seq<char>) -> Seq<char> {
    session_id.filter(|c: char| key_char(c))
}

/// The storage key of a session: its id keeping only ASCII letters, digits and
/// `-`.
pub fn session_key(session_id: &str) -> (r: String)
    ensures
        r@ == session_key_of(session_id@),
{
    let chars = crate::text::chars_of(session_id);
    let mut r = String::new();
    let ghost pred = |c: char| key_char(c);
    let mut i: usize = 0;
    while i < chars.len()
        invariant
            i <= chars@.len(),
            chars@ == session_id@,
            pred == (|c: char| key_char(c)),
            r@ == chars@.subrange(0, i as int).filter(pred),
        decreases chars@.len() - i,
    {
        let c = chars[i];
        proof {
            assert(chars@.subrange(0, i + 1) =~= chars@.subrange(0, i as int).push(c));
            chars@.subrange(0, i as int).lemma_filter_push(c, pred);
        }
        if ('a' <= c && c <= 'z') || ('A' <= c && c <= 'Z') || ('0' <= c && c <= '9') || c == '-' {
            push_char(&mut r, c);
        }
        i = i + 1;
    }
    assert(chars@.subrange(0, chars@.len() as int) =~= chars@);
    r
}

/// The anchor id with the `anchor:` prefix, added when it is missing.
pub fn normalize_anchor(value: &str) -> (r: String)
    ensures
        r@ == if crate::text::starts(value@, "anchor:"@) {
            value@
        } else {
            "anchor:"@ + value@
        },
{
    if starts_with_str(value, "anchor:") {
        String::from_str(value)
    } else {
        concat2("anchor:", value)
    }
}

/// What a session needs before it can run: its bound identity when that is still
/// live, else a new one to be issued with these defaults.
#[derive(Debug)]
pub enum IdentityPlan {
    Reuse(crate::session::store::SessionIdentity),
    Issue { tenant_id: String, principal_id: String, policy_id: String, lease_ttl_ms: u64 },
}

/// The lease lifetime of an identity issued by default: one hour.
pub const DEFAULT_LEASE_TTL_MS: u64 = 3_600_000;

/// Keeps a bound identity that has not expired at `now_ms`; otherwise asks for
/// the default tenant and policy, with the session's own principal.
pub fn plan_default_identity(bound: Option<crate::session::store::SessionIdentity>, session_id: &str, now_ms: u64) -> (r:
    IdentityPlan)
    ensures
        match bound {
            Some(i) => i.expires_at_ms > now_ms ==> r == IdentityPlan::Reuse(i),
            None => true,
        },
        !(bound matches Some(i) && i.expires_at_ms > now_ms) ==> (r matches IdentityPlan::Issue {
            tenant_id,
            principal_id,
            policy_id,
            lease_ttl_ms,
        } && tenant_id@ == "tenant:default"@ && principal_id@ == "principal:"@ + session_id@ && policy_id@
            == "policy:default"@ && lease_ttl_ms == DEFAULT_LEASE_TTL_MS),
{
    if let Some(identity) = bound {
        if identity.expires_at_ms > now_ms {
            return IdentityPlan::Reuse(identity);
        }
    }
    IdentityPlan::Issue {
        tenant_id: String::from_str("tenant:default"),
        principal_id: concat2("principal:", session_id),
        policy_id: String::from_str("policy:default"),
        lease_ttl_ms: DEFAULT_LEASE_TTL_MS,
    }
}

/// The identity bound to a session once a lease was issued at `now_ms` for
/// `lease_ttl_ms`: it expires at their (saturating) sum.
pub fn bound_identity(
    tenant_id: String,
    principal_id: String,
    policy_id: String,
    lease_token: String,
    now_ms: u64,
    lease_ttl_ms: u64,
) -> (r: crate::session::store::SessionIdentity)
    ensures
        r.tenant_id == tenant_id,
        r.principal_id == principal_id,
        r.policy_id == policy_id,
        r.lease_token == lease_token,
        r.expires_at_ms == if now_ms + lease_ttl_ms > u64::MAX { u64::MAX as int } else { now_ms + lease_ttl_ms },
{
    crate::session::store::SessionIdentity {
        tenant_id,
        principal_id,
        policy_id,
        lease_token,
        expires_at_ms: now_ms.saturating_add(lease_ttl_ms),
    }
}

} // verus!
