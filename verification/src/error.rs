use vstd::prelude::*;

verus! {

/// Why an operation on the solver's data was refused.
///
/// Convergence failure is not among these: a solve that does not converge
/// ends with a status, not with an error.
#[derive(Debug, Clone, Copy, PartialEq, Eq, Structural)]
pub enum SolverError {
    /// A reference to an entity, or to one of its parameters, resolves to nothing.
    UnknownReference,
    /// An entity id is being registered a second time.
    DuplicateId,
    /// The constraint kind is declared but has no residual yet.
    Unimplemented,
    /// A parameter count disagrees with the one that was registered or expected.
    DimensionMismatch,
    /// What was asked cannot be done on the value as it is: a write to a
    /// parameter that is fixed or is not there, the result of a run that has
    /// not ended, a primitive read as one of another kind.
    InvalidOperation,
}

impl SolverError {
    /// The text of the error, for a host that reports errors as strings.
    pub open spec fn text(self) -> Seq<char> {
        match self {
            SolverError::UnknownReference => "reference to an unknown entity or parameter"@,
            SolverError::DuplicateId => "entity id is already registered"@,
            SolverError::Unimplemented => "constraint kind is not implemented"@,
            SolverError::DimensionMismatch => "parameter count mismatch"@,
            SolverError::InvalidOperation => "operation is not valid here"@,
        }
    }

    /// Renders the error as a `String`.
    pub fn message(&self) -> (s: String)
        ensures
            s@ == self.text(),
    {
        match self {
            SolverError::UnknownReference => "reference to an unknown entity or parameter".to_owned(),
            SolverError::DuplicateId => "entity id is already registered".to_owned(),
            SolverError::Unimplemented => "constraint kind is not implemented".to_owned(),
            SolverError::DimensionMismatch => "parameter count mismatch".to_owned(),
            SolverError::InvalidOperation => "operation is not valid here".to_owned(),
        }
    }
}

} // verus!
