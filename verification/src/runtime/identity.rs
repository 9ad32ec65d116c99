use vstd::prelude::*;

use crate::contracts::types::TaskEnvelope;
use crate::runtime::kernel::RuntimeKernel;
use crate::text::{starts, starts_with_str, str_equal, texts};

verus! {

/// A tenant and whether it is active.
#[derive(Debug, Clone)]
pub struct Tenant {
    pub tenant_id: String,
    pub name: String,
    pub status: String,
    pub created_at_ms: u64,
}

/// A principal of a tenant and whether it is active.
#[derive(Debug, Clone)]
pub struct Principal {
    pub principal_id: String,
    pub tenant_id: String,
    pub principal_type: String,
    pub status: String,
    pub created_at_ms: u64,
}

/// The role a principal holds in a tenant.
#[derive(Debug, Clone)]
pub struct RoleBinding {
    pub tenant_id: String,
    pub principal_id: String,
    pub role: String,
    pub updated_at_ms: u64,
}

/// What a policy allows: its role, capability prefixes and resource ceilings.
#[derive(Debug, Clone)]
pub struct PolicyBinding {
    pub policy_id: String,
    pub tenant_id: String,
    pub role: String,
    pub allowed_actions: Vec<String>,
    pub capability_prefixes: Vec<String>,
    pub max_memory_mb: u32,
    pub max_tokens: u32,
    pub updated_at_ms: u64,
}

/// A session's lease: the identity it was issued to and when it ends.
#[derive(Debug, Clone)]
pub struct SessionLease {
    pub lease_token: String,
    pub session_id: String,
    pub tenant_id: String,
    pub principal_id: String,
    pub policy_id: String,
    pub expires_at_ms: u64,
    pub issued_at_ms: u64,
}

/// The policy lets a capability run when one of its prefixes starts the capability id.
pub open spec fn capability_allowed(prefixes: Seq<Seq<char>>, capability_id: Seq<char>) -> bool {
    exists|i: int| 0 <= i < prefixes.len() && starts(capability_id, #[trigger] prefixes[i])
}

/// The first identity check a task fails, or `None` when its identity may run it:
/// tenant and principal exist and are active, the principal's role matches the
/// policy's, the session lease is live and issued to exactly this identity, the policy
/// allows the capability, and the task stays within the policy's memory and token
/// ceilings.
pub open spec fn identity_failure(
    e: TaskEnvelope,
    tenant: Option<Tenant>,
    principal: Option<Principal>,
    role_binding: Option<RoleBinding>,
    policy: Option<PolicyBinding>,
    lease: Option<SessionLease>,
    now_ms: u64,
) -> Option<Seq<char>> {
    if tenant is None {
        Some("tenant not found"@)
    } else if tenant->0.status@ != "active"@ {
        Some("tenant is not active"@)
    } else if principal is None {
        Some("principal not found"@)
    } else if principal->0.status@ != "active"@ {
        Some("principal is not active"@)
    } else if role_binding is None {
        Some("role binding not found"@)
    } else if policy is None {
        Some("policy binding not found"@)
    } else if role_binding->0.role@ != policy->0.role@ {
        Some("role downgraded or mismatched with policy"@)
    } else if lease is None {
        Some("session lease not found"@)
    } else if lease->0.expires_at_ms <= now_ms {
        Some("session lease expired"@)
    } else if lease->0.lease_token@ != e.identity.lease_token@ || lease->0.tenant_id@ != e.identity.tenant_id@
        || lease->0.principal_id@ != e.identity.principal_id@ || lease->0.policy_id@ != e.identity.policy_id@ {
        Some("session lease identity mismatch"@)
    } else if !capability_allowed(texts(policy->0.capability_prefixes@), e.capability_id@) {
        Some("capability not allowed by policy"@)
    } else if e.constraints.max_memory_mb > policy->0.max_memory_mb {
        Some("requested memory exceeds policy max"@)
    } else if e.constraints.max_tokens > policy->0.max_tokens {
        Some("requested tokens exceeds policy max"@)
    } else {
        None
    }
}

fn fail(msg: &str) -> (r: Result<(), String>)
    ensures
        r is Err && r->Err_0@ == msg@,
{
    Err(String::from_str(msg))
}

impl RuntimeKernel {
    /// Checks that a task's identity may run it, given the tenant, principal, role
    /// binding, policy binding and session lease stored for it; the error names the
    /// first check that fails.
    pub fn validate_execution_identity(
        &self,
        envelope: &TaskEnvelope,
        tenant: Option<Tenant>,
        principal: Option<Principal>,
        role_binding: Option<RoleBinding>,
        policy: Option<PolicyBinding>,
        lease: Option<SessionLease>,
        now_ms: u64,
    ) -> (r: Result<(), String>)
        ensures
            match identity_failure(*envelope, tenant, principal, role_binding, policy, lease, now_ms) {
                None => r is Ok,
                Some(msg) => r is Err && r->Err_0@ == msg,
            },
    {
        let tenant = match tenant {
            Some(t) => t,
            None => return fail("tenant not found"),
        };
        if !str_equal(tenant.status.as_str(), "active") {
            return fail("tenant is not active");
        }
        let principal = match principal {
            Some(p) => p,
            None => return fail("principal not found"),
        };
        if !str_equal(principal.status.as_str(), "active") {
            return fail("principal is not active");
        }
        let role_binding = match role_binding {
            Some(b) => b,
            None => return fail("role binding not found"),
        };
        let policy = match policy {
            Some(p) => p,
            None => return fail("policy binding not found"),
        };
        if !str_equal(role_binding.role.as_str(), policy.role.as_str()) {
            return fail("role downgraded or mismatched with policy");
        }
        let lease = match lease {
            Some(l) => l,
            None => return fail("session lease not found"),
        };
        if lease.expires_at_ms <= now_ms {
            return fail("session lease expired");
        }
        if !str_equal(lease.lease_token.as_str(), envelope.identity.lease_token.as_str())
            || !str_equal(lease.tenant_id.as_str(), envelope.identity.tenant_id.as_str())
            || !str_equal(lease.principal_id.as_str(), envelope.identity.principal_id.as_str())
            || !str_equal(lease.policy_id.as_str(), envelope.identity.policy_id.as_str()) {
            return fail("session lease identity mismatch");
        }
        let mut allowed = false;
        let mut i: usize = 0;
        while i < policy.capability_prefixes.len()
            invariant
                i <= policy.capability_prefixes@.len(),
                allowed == exists|j: int| 0 <= j < i && starts(envelope.capability_id@, #[trigger] texts(policy.capability_prefixes@)[j]),
            decreases policy.capability_prefixes@.len() - i,
        {
            if starts_with_str(envelope.capability_id.as_str(), policy.capability_prefixes[i].as_str()) {
                allowed = true;
            }
            proof {
                assert(texts(policy.capability_prefixes@)[i as int] == policy.capability_prefixes@[i as int]@);
            }
            i = i + 1;
        }
        if !allowed {
            return fail("capability not allowed by policy");
        }
        if envelope.constraints.max_memory_mb > policy.max_memory_mb {
            return fail("requested memory exceeds policy max");
        }
        if envelope.constraints.max_tokens > policy.max_tokens {
            return fail("requested tokens exceeds policy max");
        }
        Ok(())
    }
}

/// A task passes the identity checks only with a live lease issued to its own
/// identity, under a policy that allows its capability.
pub proof fn law_identity_requires_live_matching_lease(
    e: TaskEnvelope,
    tenant: Option<Tenant>,
    principal: Option<Principal>,
    role_binding: Option<RoleBinding>,
    policy: Option<PolicyBinding>,
    lease: Option<SessionLease>,
    now_ms: u64,
)
    requires
        identity_failure(e, tenant, principal, role_binding, policy, lease, now_ms) is None,
    ensures
        lease is Some,
        lease->0.expires_at_ms > now_ms,
        lease->0.lease_token@ == e.identity.lease_token@,
        lease->0.tenant_id@ == e.identity.tenant_id@,
        policy is Some,
        capability_allowed(texts(policy->0.capability_prefixes@), e.capability_id@),
        e.constraints.max_tokens <= policy->0.max_tokens,
        tenant->0.status@ == "active"@,
        principal->0.status@ == "active"@,
{
}

} // verus!
