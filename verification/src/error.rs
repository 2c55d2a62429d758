use vstd::prelude::*;

verus! {

/// Why a generation pass was abandoned.
#[derive(Clone, Copy, Debug, PartialEq, Eq, Structural)]
pub enum GenerateError {
    /// A resolved type name is not a structured path.
    MalformedTypeReference,
    /// The accumulated text of a role is not a program.
    InvalidProgram,
    /// A name that a generated item would carry is not an identifier.
    InvalidIdentifier,
}

impl GenerateError {
    /// The stage that raised the error, for diagnostics.
    pub fn stage(&self) -> (r: &'static str)
        ensures
            r@ == (match *self {
                GenerateError::MalformedTypeReference => "resolution"@,
                GenerateError::InvalidProgram => "finalization"@,
                GenerateError::InvalidIdentifier => "naming"@,
            }),
    {
        match self {
            GenerateError::MalformedTypeReference => "resolution",
            GenerateError::InvalidProgram => "finalization",
            GenerateError::InvalidIdentifier => "naming",
        }
    }
}

} // verus!
