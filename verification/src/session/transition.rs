use vstd::prelude::*;

use crate::session::signal::{signal_name, WorkflowSignal};
use crate::session::state::{state_name, WorkflowState};
use crate::text::concat3;

verus! {

/// A signal that the current state does not accept.
#[derive(Debug, Clone, Copy)]
pub struct TransitionError {
    pub from: WorkflowState,
    pub signal: WorkflowSignal,
}

/// The workflow transition table: the state a signal leads to, or `None` where the
/// signal is not accepted. Rows are tried in order; the first that matches decides.
pub open spec fn transition(from: WorkflowState, signal: WorkflowSignal) -> Option<WorkflowState> {
    match (from, signal) {
        (WorkflowState::Intake, WorkflowSignal::IntentReceived) => Some(WorkflowState::PolicyReview),
        (WorkflowState::PolicyReview, WorkflowSignal::PolicyApproved) => Some(WorkflowState::Planned),
        (WorkflowState::PolicyReview, WorkflowSignal::PolicyRejected) => Some(WorkflowState::PolicyReview),
        (WorkflowState::Planned, WorkflowSignal::PlanCommitted) => Some(WorkflowState::Scheduled),
        (WorkflowState::Scheduled, WorkflowSignal::TaskScheduled) => Some(WorkflowState::Executing),
        (WorkflowState::Executing, WorkflowSignal::ExecutionStarted) => Some(WorkflowState::Executing),
        (WorkflowState::Executing, WorkflowSignal::ExecutionFailed) => Some(WorkflowState::Planned),
        (_, WorkflowSignal::RuntimeBlocked) => Some(WorkflowState::Blocked),
        (WorkflowState::Executing, WorkflowSignal::VerifyPassed) => Some(WorkflowState::Verifying),
        (WorkflowState::Executing, WorkflowSignal::VerifyRejected) => Some(WorkflowState::Verifying),
        (WorkflowState::Verifying, WorkflowSignal::VerifyRejected) => Some(WorkflowState::Planned),
        (WorkflowState::Verifying, WorkflowSignal::VerifyPassed) => Some(WorkflowState::Closed),
        (WorkflowState::Blocked, WorkflowSignal::PolicyApproved) => Some(WorkflowState::Planned),
        (_, WorkflowSignal::Closed) => Some(WorkflowState::Closed),
        (WorkflowState::Executing, WorkflowSignal::TaskScheduled) => Some(WorkflowState::Executing),
        (WorkflowState::Executing, WorkflowSignal::PlanCommitted) => Some(WorkflowState::Executing),
        (WorkflowState::Executing, WorkflowSignal::PolicyRejected) => Some(WorkflowState::Planned),
        (WorkflowState::Executing, WorkflowSignal::PolicyApproved) => Some(WorkflowState::Executing),
        (WorkflowState::Scheduled, WorkflowSignal::ExecutionStarted) => Some(WorkflowState::Executing),
        (WorkflowState::Planned, WorkflowSignal::TaskScheduled) => Some(WorkflowState::Scheduled),
        (WorkflowState::Planned, WorkflowSignal::VerifyRejected) => Some(WorkflowState::Planned),
        (WorkflowState::Planned, WorkflowSignal::PolicyRejected) => Some(WorkflowState::PolicyReview),
        (WorkflowState::Closed, WorkflowSignal::VerifyRejected) => Some(WorkflowState::Planned),
        (WorkflowState::Closed, WorkflowSignal::VerifyPassed) => Some(WorkflowState::Closed),
        _ => None,
    }
}

/// Text of the error, as its `Display` writes it.
pub open spec fn transition_error_text(e: TransitionError) -> Seq<char> {
    "invalid workflow transition: "@ + state_name(e.from) + " --("@ + signal_name(e.signal)
        + ")-> ?"@
}

impl TransitionError {
    /// The message that describes the refused transition.
    pub fn message(&self) -> (r: String)
        ensures
            r@ == transition_error_text(*self),
    {
        let head = concat3("invalid workflow transition: ", self.from.name(), " --(");
        let tail = concat3(head.as_str(), self.signal.name(), ")-> ?");
        tail
    }
}

/// Moves a session to the state that `signal` leads to from `from`.
pub fn next_state(from: WorkflowState, signal: WorkflowSignal) -> (r: Result<WorkflowState, TransitionError>)
    ensures
        match transition(from, signal) {
            Some(target) => r == Ok::<WorkflowState, TransitionError>(target),
            None => r == Err::<WorkflowState, TransitionError>(TransitionError { from, signal }),
        },
{
    let target = match (from, signal) {
        (WorkflowState::Intake, WorkflowSignal::IntentReceived) => WorkflowState::PolicyReview,
        (WorkflowState::PolicyReview, WorkflowSignal::PolicyApproved) => WorkflowState::Planned,
        (WorkflowState::PolicyReview, WorkflowSignal::PolicyRejected) => WorkflowState::PolicyReview,
        (WorkflowState::Planned, WorkflowSignal::PlanCommitted) => WorkflowState::Scheduled,
        (WorkflowState::Scheduled, WorkflowSignal::TaskScheduled) => WorkflowState::Executing,
        (WorkflowState::Executing, WorkflowSignal::ExecutionStarted) => WorkflowState::Executing,
        (WorkflowState::Executing, WorkflowSignal::ExecutionFailed) => WorkflowState::Planned,
        (_, WorkflowSignal::RuntimeBlocked) => WorkflowState::Blocked,
        (WorkflowState::Executing, WorkflowSignal::VerifyPassed) => WorkflowState::Verifying,
        (WorkflowState::Executing, WorkflowSignal::VerifyRejected) => WorkflowState::Verifying,
        (WorkflowState::Verifying, WorkflowSignal::VerifyRejected) => WorkflowState::Planned,
        (WorkflowState::Verifying, WorkflowSignal::VerifyPassed) => WorkflowState::Closed,
        (WorkflowState::Blocked, WorkflowSignal::PolicyApproved) => WorkflowState::Planned,
        (_, WorkflowSignal::Closed) => WorkflowState::Closed,
        (WorkflowState::Executing, WorkflowSignal::TaskScheduled) => WorkflowState::Executing,
        (WorkflowState::Executing, WorkflowSignal::PlanCommitted) => WorkflowState::Executing,
        (WorkflowState::Executing, WorkflowSignal::PolicyRejected) => WorkflowState::Planned,
        (WorkflowState::Executing, WorkflowSignal::PolicyApproved) => WorkflowState::Executing,
        (WorkflowState::Scheduled, WorkflowSignal::ExecutionStarted) => WorkflowState::Executing,
        (WorkflowState::Planned, WorkflowSignal::TaskScheduled) => WorkflowState::Scheduled,
        (WorkflowState::Planned, WorkflowSignal::VerifyRejected) => WorkflowState::Planned,
        (WorkflowState::Planned, WorkflowSignal::PolicyRejected) => WorkflowState::PolicyReview,
        (WorkflowState::Closed, WorkflowSignal::VerifyRejected) => WorkflowState::Planned,
        (WorkflowState::Closed, WorkflowSignal::VerifyPassed) => WorkflowState::Closed,
        _ => {
            return Err(TransitionError { from, signal });
        },
    };
    Ok(target)
}

/// The `Closed` signal closes a session from every state.
pub proof fn law_closed_signal_always_closes(from: WorkflowState)
    ensures
        transition(from, WorkflowSignal::Closed) == Some(WorkflowState::Closed),
{
}

/// A policy or runtime-guard denial blocks a session from every state, and
/// nothing else blocks it.
pub proof fn law_runtime_block_always_blocks(from: WorkflowState, signal: WorkflowSignal)
    ensures
        transition(from, WorkflowSignal::RuntimeBlocked) == Some(WorkflowState::Blocked),
        transition(from, signal) == Some(WorkflowState::Blocked) <==> signal == WorkflowSignal::RuntimeBlocked,
{
}

/// Verification and execution failures send work back to planning: a verifier
/// rejection during verification, and an execution failure or runtime block during
/// execution, never close the session.
pub proof fn law_failures_never_close(from: WorkflowState, signal: WorkflowSignal)
    requires
        signal == WorkflowSignal::ExecutionFailed || signal == WorkflowSignal::RuntimeBlocked
            || signal == WorkflowSignal::PolicyRejected,
    ensures
        transition(from, signal) != Some(WorkflowState::Closed),
{
}

/// A session leaves `Intake` only on a received intent (or by being closed or
/// blocked).
pub proof fn law_intake_needs_intent(signal: WorkflowSignal)
    ensures
        transition(WorkflowState::Intake, signal) is Some <==> (signal == WorkflowSignal::IntentReceived || signal
            == WorkflowSignal::Closed || signal == WorkflowSignal::RuntimeBlocked),
{
}

/// Only an approved policy moves a session out of review into planning; a
/// rejected policy keeps it in review, and a rejection never moves any session
/// forward into scheduling, execution, verification or closure.
pub proof fn law_policy_review_needs_approval(from: WorkflowState, signal: WorkflowSignal)
    ensures
        transition(WorkflowState::PolicyReview, signal) == Some(WorkflowState::Planned) <==> signal
            == WorkflowSignal::PolicyApproved,
        transition(WorkflowState::PolicyReview, WorkflowSignal::PolicyRejected) == Some(WorkflowState::PolicyReview),
        transition(from, WorkflowSignal::PolicyRejected) != Some(WorkflowState::Scheduled),
        transition(from, WorkflowSignal::PolicyRejected) != Some(WorkflowState::Executing),
        transition(from, WorkflowSignal::PolicyRejected) != Some(WorkflowState::Verifying),
{
}

/// A session closes only on the `Closed` signal or on a verifier pass while it
/// is verifying (or already closed).
pub proof fn law_closing_needs_verification(from: WorkflowState, signal: WorkflowSignal)
    ensures
        transition(from, signal) == Some(WorkflowState::Closed) ==> (signal == WorkflowSignal::Closed || (signal
            == WorkflowSignal::VerifyPassed && (from == WorkflowState::Verifying || from == WorkflowState::Closed))),
        transition(WorkflowState::Verifying, WorkflowSignal::VerifyPassed) == Some(WorkflowState::Closed),
{
}

/// Execution starts only from a scheduled session (or continues one already
/// executing): the plan must be committed and the task scheduled first.
pub proof fn law_execution_needs_schedule(from: WorkflowState, signal: WorkflowSignal)
    ensures
        transition(from, signal) == Some(WorkflowState::Executing) ==> (from == WorkflowState::Scheduled || from
            == WorkflowState::Executing),
        transition(WorkflowState::Planned, WorkflowSignal::PlanCommitted) == Some(WorkflowState::Scheduled),
        transition(WorkflowState::Scheduled, WorkflowSignal::TaskScheduled) == Some(WorkflowState::Executing),
{
}

} // verus!
