//! Errors of configuration and of the event cycle.
use vstd::prelude::*;

verus! {

#[derive(Clone, Copy, Debug, PartialEq, Eq, Structural)]
pub enum BridgeError {
    /// A host variable was provided twice.
    DuplicateVariable,
    /// A host index lies outside the host's addressable range.
    InvalidHostIndex,
    /// Two failure bindings share an external code.
    DuplicateFailureCode,
    /// Two rules of one phase write the same destination.
    ConflictingDestination,
    /// An electrical bus name, or the auxiliary power unit, was bound twice.
    DuplicateElectricalBinding,
    /// A failure request names a code that no binding has.
    UnknownFailureCode,
    /// A variable that is not registered was read or written.
    UnknownVariable,
    /// The systems model could not be stepped.
    StepFailed,
}

} // verus!
