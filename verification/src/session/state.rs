use vstd::prelude::*;

verus! {

/// Stages of a governed session.
#[derive(Debug, Clone, Copy, PartialEq, Eq, Hash, Structural)]
pub enum WorkflowState {
    Intake,
    PolicyReview,
    Planned,
    Scheduled,
    Executing,
    Verifying,
    Closed,
    Blocked,
}

/// The variant's name, as `Debug` prints it.
pub open spec fn state_name(s: WorkflowState) -> Seq<char> {
    match s {
        WorkflowState::Intake => "Intake"@,
        WorkflowState::PolicyReview => "PolicyReview"@,
        WorkflowState::Planned => "Planned"@,
        WorkflowState::Scheduled => "Scheduled"@,
        WorkflowState::Executing => "Executing"@,
        WorkflowState::Verifying => "Verifying"@,
        WorkflowState::Closed => "Closed"@,
        WorkflowState::Blocked => "Blocked"@,
    }
}

impl WorkflowState {
    /// The variant's name.
    pub fn name(&self) -> (r: &'static str)
        ensures
            r@ == state_name(*self),
    {
        match self {
            WorkflowState::Intake => "Intake",
            WorkflowState::PolicyReview => "PolicyReview",
            WorkflowState::Planned => "Planned",
            WorkflowState::Scheduled => "Scheduled",
            WorkflowState::Executing => "Executing",
            WorkflowState::Verifying => "Verifying",
            WorkflowState::Closed => "Closed",
            WorkflowState::Blocked => "Blocked",
        }
    }
}

} // verus!
