use vstd::prelude::*;
use acvm::pwg::OpcodeResolutionError;
use crate::errors::ExecutionError;
use crate::foreign_call::{
    dispatched, ForeignCall, ForeignCallRequest, ForeignCallResult, OutputSink,
};

verus! {

/// What the solving engine reports when a call of its `solve` returns.
#[derive(Debug)]
pub enum SolverStatus {
    /// Every opcode is solved.
    Solved,
    /// The engine is in the middle of the circuit. A call of `solve` runs
    /// until one of the other three holds, so the driver never ought to see
    /// this.
    InProgress,
    /// The engine cannot go on; the detail is its own.
    Failure(OpcodeResolutionError),
    /// The engine waits for the answer to this foreign call.
    RequiresForeignCall(ForeignCallRequest),
}

/// How many foreign calls are unanswered once the engine has reported
/// `status`.
pub open spec fn outstanding(status: SolverStatus) -> nat {
    match status {
        SolverStatus::RequiresForeignCall(_) => 1,
        _ => 0,
    }
}

/// What the driver does after a report of the engine.
#[derive(Debug)]
pub enum Action {
    /// The circuit is solved: take the witness.
    Finish,
    /// Stop with this error.
    Abort(ExecutionError),
    /// Hand this answer to the engine and let it solve on.
    Resume(ForeignCallResult),
}

/// The action that a report calls for, and what is written on the way.
///
/// A solved circuit finishes; a failure stops with the engine's detail; a
/// report of being in progress stops as a broken invariant; a foreign call is
/// dispatched, and its answer resumes the engine or its error stops the run.
/// Only a dispatched call writes to the sink.
pub open spec fn decided(
    status: SolverStatus,
    show_output: bool,
    before: OutputSink,
    after: OutputSink,
    action: Action,
) -> bool {
    match status {
        SolverStatus::Solved => action is Finish && after.same_as(before),
        SolverStatus::InProgress => {
            &&& action matches Action::Abort(ExecutionError::InternalInvariantViolation)
            &&& after.same_as(before)
        },
        SolverStatus::Failure(detail) => {
            &&& action matches Action::Abort(ExecutionError::SolverFailure(error))
            &&& error == detail
            &&& after.same_as(before)
        },
        SolverStatus::RequiresForeignCall(request) => match action {
            Action::Finish => false,
            Action::Abort(error) => dispatched(request, show_output, before, after, Err(error)),
            Action::Resume(result) => dispatched(request, show_output, before, after, Ok(result)),
        },
    }
}

/// Decides what follows a report of the engine, dispatching the foreign call
/// if the report holds one.
pub fn step(status: SolverStatus, show_output: bool, output: &mut OutputSink) -> (action: Action)
    ensures
        decided(status, show_output, *old(output), *final(output), action),
{
    match status {
        SolverStatus::Solved => Action::Finish,
        SolverStatus::InProgress => Action::Abort(ExecutionError::InternalInvariantViolation),
        SolverStatus::Failure(detail) => Action::Abort(ExecutionError::SolverFailure(detail)),
        SolverStatus::RequiresForeignCall(request) => {
            match ForeignCall::execute(&request, show_output, output) {
                Ok(result) => Action::Resume(result),
                Err(error) => Action::Abort(error),
            }
        },
    }
}

/// Two actions of the same kind: both finish, both resume with as many
/// values, or both stop with an error of the same class, the same detail and
/// the same identifier.
pub open spec fn same_action(first: Action, second: Action) -> bool {
    match (first, second) {
        (Action::Finish, Action::Finish) => true,
        (Action::Resume(a), Action::Resume(b)) => a.values@.len() == b.values@.len(),
        (Action::Abort(a), Action::Abort(b)) => match (a, b) {
            (ExecutionError::SolverFailure(x), ExecutionError::SolverFailure(y)) => x == y,
            (ExecutionError::UnknownForeignCall(x), ExecutionError::UnknownForeignCall(y)) => x@
                == y@,
            (ExecutionError::ResultShapeMismatch, ExecutionError::ResultShapeMismatch) => true,
            (
                ExecutionError::InternalInvariantViolation,
                ExecutionError::InternalInvariantViolation,
            ) => true,
            _ => false,
        },
        _ => false,
    }
}

/// The same report, output mode and output so far lead to the same action
/// and the same output.
pub proof fn lemma_step_deterministic(
    status: SolverStatus,
    show_output: bool,
    before: OutputSink,
    after_first: OutputSink,
    first: Action,
    after_second: OutputSink,
    second: Action,
)
    requires
        decided(status, show_output, before, after_first, first),
        decided(status, show_output, before, after_second, second),
    ensures
        same_action(first, second),
        after_first.same_as(after_second),
{
}

/// Whether output is shown changes which lines are written and nothing else:
/// the action after a report is the same either way, and so is the message
/// of an assertion; without output no line is written.
pub proof fn lemma_output_mode_keeps_action(
    status: SolverStatus,
    before: OutputSink,
    after_shown: OutputSink,
    shown: Action,
    after_silent: OutputSink,
    silent: Action,
)
    requires
        decided(status, true, before, after_shown, shown),
        decided(status, false, before, after_silent, silent),
    ensures
        same_action(shown, silent),
        after_shown.message_text() == after_silent.message_text(),
        after_silent.line_texts() == before.line_texts(),
{
}

/// A report leaves at most one foreign call unanswered, and the driver deals
/// with it at once: it answers the call or ends the run, and it hands the
/// engine an answer only when a call is waiting for one.
pub proof fn lemma_one_request_at_a_time(
    status: SolverStatus,
    show_output: bool,
    before: OutputSink,
    after: OutputSink,
    action: Action,
)
    requires
        decided(status, show_output, before, after, action),
    ensures
        outstanding(status) <= 1,
        action is Resume ==> outstanding(status) == 1,
        outstanding(status) == 1 ==> !(action is Finish),
        action is Finish <==> status is Solved,
{
}

} // verus!
