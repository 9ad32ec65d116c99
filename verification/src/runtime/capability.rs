use vstd::prelude::*;

verus! {

/// Lifecycle state of a forged capability.
#[derive(Debug, Clone, Copy, PartialEq, Eq, Structural)]
pub enum CapabilityStatus {
    PendingVerification,
    Active,
    Deprecated,
    Retired,
}

/// Verification state of a forged capability.
#[derive(Debug, Clone, Copy, PartialEq, Eq, Structural)]
pub enum ApprovalStatus {
    Pending,
    Verified,
    Rejected,
}

/// Supply-chain trust state of a forged capability.
#[derive(Debug, Clone, Copy, PartialEq, Eq, Structural)]
pub enum TrustStatus {
    Trusted,
    Untrusted,
    Rejected,
}

/// Risk class of a forged capability.
#[derive(Debug, Clone, Copy, PartialEq, Eq, Structural)]
pub enum CapabilityRisk {
    Low,
    Medium,
    High,
}

/// How widely a forged capability may be reused.
#[derive(Debug, Clone, Copy, PartialEq, Eq, Structural)]
pub enum CapabilityScope {
    Session,
    TaskFamily,
    Global,
}

/// A cataloged MCP capability: what it runs, where, and its governance state.
///
/// `health_score` is in thousandths (700 = 0.70).
#[derive(Debug, Clone)]
pub struct ForgedMcpToolManifest {
    pub capability_id: String,
    pub registered_tool_name: String,
    pub delegate_tool_name: String,
    pub server: String,
    pub capability_name: String,
    pub purpose: String,
    pub executable: String,
    pub command_template: String,
    pub working_directory: Option<String>,
    pub success_signal: Option<String>,
    pub version: u32,
    pub status: CapabilityStatus,
    pub approval_status: ApprovalStatus,
    pub trust_status: TrustStatus,
    pub trust_findings: Vec<String>,
    pub health_score: u32,
    pub scope: CapabilityScope,
    pub risk: CapabilityRisk,
}

/// A capability needs an explicit approval gate when its risk is high.
pub open spec fn spec_requires_gate(m: ForgedMcpToolManifest) -> bool {
    m.risk == CapabilityRisk::High
}

impl ForgedMcpToolManifest {
    /// Whether running the capability needs an explicit approval gate.
    pub fn requires_gate(&self) -> (b: bool)
        ensures
            b == spec_requires_gate(*self),
    {
        self.risk == CapabilityRisk::High
    }
}

/// The variant's name, as `Debug` prints it.
pub open spec fn status_name(s: CapabilityStatus) -> Seq<char> {
    match s {
        CapabilityStatus::PendingVerification => "PendingVerification"@,
        CapabilityStatus::Active => "Active"@,
        CapabilityStatus::Deprecated => "Deprecated"@,
        CapabilityStatus::Retired => "Retired"@,
    }
}

/// The variant's name, as `Debug` prints it.
pub open spec fn approval_name(s: ApprovalStatus) -> Seq<char> {
    match s {
        ApprovalStatus::Pending => "Pending"@,
        ApprovalStatus::Verified => "Verified"@,
        ApprovalStatus::Rejected => "Rejected"@,
    }
}

/// The variant's name, as `Debug` prints it.
pub open spec fn trust_name(s: TrustStatus) -> Seq<char> {
    match s {
        TrustStatus::Trusted => "Trusted"@,
        TrustStatus::Untrusted => "Untrusted"@,
        TrustStatus::Rejected => "Rejected"@,
    }
}

impl CapabilityStatus {
    /// The variant's name.
    pub fn name(&self) -> (r: &'static str)
        ensures
            r@ == status_name(*self),
    {
        match self {
            CapabilityStatus::PendingVerification => "PendingVerification",
            CapabilityStatus::Active => "Active",
            CapabilityStatus::Deprecated => "Deprecated",
            CapabilityStatus::Retired => "Retired",
        }
    }
}

impl TrustStatus {
    /// The variant's name.
    pub fn name(&self) -> (r: &'static str)
        ensures
            r@ == trust_name(*self),
    {
        match self {
            TrustStatus::Trusted => "Trusted",
            TrustStatus::Untrusted => "Untrusted",
            TrustStatus::Rejected => "Rejected",
        }
    }
}

} // verus!
