//! The failures of the package-creation operation. Every failure is
//! propagated to the caller as it stands; nothing is retried or recovered
//! locally.

use vstd::prelude::*;

verus! {

/// Why the package-creation operation failed.
#[derive(Debug, PartialEq, Eq)]
pub enum CreateError {
    /// The current working directory could not be determined.
    Environment,
    /// The supplied name does not form a valid network-scoped program
    /// identifier.
    InvalidProgramId,
    /// The package materializer could not create the package (the path is
    /// already occupied, or an I/O or permission error); the field carries
    /// its report unmodified.
    Creation(String),
}

impl CreateError {
    /// A human-readable description of the failure. A materializer report
    /// is passed through unchanged.
    pub fn message(&self) -> (r: String)
        ensures
            match self {
                CreateError::Environment => r@ == "failed to determine the current working directory"@,
                CreateError::InvalidProgramId => r@ == "the name is not a valid Aleo program identifier"@,
                CreateError::Creation(e) => r@ == e@,
            },
    {
        match self {
            CreateError::Environment => {
                String::from_str("failed to determine the current working directory")
            },
            CreateError::InvalidProgramId => {
                String::from_str("the name is not a valid Aleo program identifier")
            },
            CreateError::Creation(e) => e.clone(),
        }
    }
}

} // verus!
