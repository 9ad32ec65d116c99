//! The runtime kernel: guard decisions, circuit breakers, budget accounting,
//! degrade/recovery planning, sandbox checks, replay comparison and the verifier.
pub mod budget;
pub mod capability;
pub mod circuit;
pub mod degrade;
pub mod execute;
pub mod flow;
pub mod guard;
pub mod identity;
pub mod kernel;
pub mod replay;
pub mod report;
pub mod sandbox;
pub mod verdict;

pub use budget::{
    BudgetAccount, BudgetReconciliationReport, BudgetReservation, CostAttribution, CostBreakdown, QuotaWindow,
    SpendLedger, SpendLedgerKind,
};
pub use capability::{ApprovalStatus, CapabilityRisk, CapabilityScope, CapabilityStatus, ForgedMcpToolManifest, TrustStatus};
pub use circuit::{CircuitPhase, CircuitState};
pub use degrade::{ChaosCase, DegradeProfile, DegradeProfileKind, FailoverRecord, RecoveryPlan};
pub use execute::RuntimeExecuteResult;
pub use guard::{GuardDecision, RuntimeGuardReport, SandboxPolicy};
pub use identity::{PolicyBinding, Principal, RoleBinding, SessionLease, Tenant};
pub use kernel::{McpExecutionProfile, ResourceLimits, RuntimeKernel};
pub use replay::{DeterminismBoundary, ReplayDeviation, ReplayRunReport, ReplayRunRequest, ReplaySnapshot};
pub use report::{ExecutionReport, McpDispatchRequest, SwarmTask};
pub use sandbox::{RenderedCommandSpec, SandboxedExecutionResult};
pub use verdict::{
    CapabilityRegressionCase, CapabilityRegressionSuite, EvaluationProtocol, RouteAlignment, RouteSignals,
    VerifierVerdict,
};
