use vstd::prelude::*;

verus! {

/// Events that drive a session through its workflow.
#[derive(Debug, Clone, Copy, PartialEq, Eq, Hash, Structural)]
pub enum WorkflowSignal {
    IntentReceived,
    PolicyApproved,
    PolicyRejected,
    PlanCommitted,
    TaskScheduled,
    ExecutionStarted,
    ExecutionFailed,
    RuntimeBlocked,
    VerifyPassed,
    VerifyRejected,
    Closed,
}

/// The variant's name, as `Debug` prints it.
pub open spec fn signal_name(s: WorkflowSignal) -> Seq<char> {
    match s {
        WorkflowSignal::IntentReceived => "IntentReceived"@,
        WorkflowSignal::PolicyApproved => "PolicyApproved"@,
        WorkflowSignal::PolicyRejected => "PolicyRejected"@,
        WorkflowSignal::PlanCommitted => "PlanCommitted"@,
        WorkflowSignal::TaskScheduled => "TaskScheduled"@,
        WorkflowSignal::ExecutionStarted => "ExecutionStarted"@,
        WorkflowSignal::ExecutionFailed => "ExecutionFailed"@,
        WorkflowSignal::RuntimeBlocked => "RuntimeBlocked"@,
        WorkflowSignal::VerifyPassed => "VerifyPassed"@,
        WorkflowSignal::VerifyRejected => "VerifyRejected"@,
        WorkflowSignal::Closed => "Closed"@,
    }
}

impl WorkflowSignal {
    /// The variant's name.
    pub fn name(&self) -> (r: &'static str)
        ensures
            r@ == signal_name(*self),
    {
        match self {
            WorkflowSignal::IntentReceived => "IntentReceived",
            WorkflowSignal::PolicyApproved => "PolicyApproved",
            WorkflowSignal::PolicyRejected => "PolicyRejected",
            WorkflowSignal::PlanCommitted => "PlanCommitted",
            WorkflowSignal::TaskScheduled => "TaskScheduled",
            WorkflowSignal::ExecutionStarted => "ExecutionStarted",
            WorkflowSignal::ExecutionFailed => "ExecutionFailed",
            WorkflowSignal::RuntimeBlocked => "RuntimeBlocked",
            WorkflowSignal::VerifyPassed => "VerifyPassed",
            WorkflowSignal::VerifyRejected => "VerifyRejected",
            WorkflowSignal::Closed => "Closed",
        }
    }
}

} // verus!
