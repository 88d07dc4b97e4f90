use vstd::prelude::*;
use acvm::pwg::OpcodeResolutionError;

verus! {

/// `acvm::pwg::OpcodeResolutionError`: the solving engine's own account of why
/// it could not go on. It is carried through as it is; nothing here looks
/// inside one.
#[verifier::external_type_specification]
#[verifier::external_body]
pub struct ExOpcodeResolutionError(OpcodeResolutionError);

/// Why an execution stopped without a witness.
#[derive(Debug)]
pub enum ExecutionError {
    /// The solver gave up: constraints that cannot be met, a black-box
    /// function that failed, or an assertion of the circuit. The detail is the
    /// solver's, untouched.
    SolverFailure(OpcodeResolutionError),
    /// The circuit asked for a foreign call whose identifier the dispatcher
    /// does not know.
    UnknownForeignCall(String),
    /// A foreign call produced a result of another shape than its identifier
    /// stands for.
    ResultShapeMismatch,
    /// The solver reported that it was still in progress after it had
    /// returned.
    InternalInvariantViolation,
}

} // verus!
