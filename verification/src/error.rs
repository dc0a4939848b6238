//! The classes of failure, and the failures of the two systems of record
//! that the engine builds on.

use vstd::prelude::*;

verus! {

/// The class of a failure: what a caller can do about it.
#[derive(Clone, Copy, Debug, PartialEq, Eq, Structural)]
pub enum Failure {
    /// The entity is absent or soft-deleted; the two are not told apart.
    NotFound,
    /// The name is taken within its scope.
    Conflict,
    /// The request asks for nothing that could be done.
    ValidationFailure,
    /// The attempts to generate a basename are used up.
    GenerationFailure,
    /// The physical backend failed.
    BackendFailure,
    /// The metadata store failed.
    StoreFailure,
}

impl Failure {
    /// The status code that an answer of this class bears.
    pub open spec fn spec_status(self) -> u16 {
        match self {
            Failure::NotFound => 404,
            Failure::Conflict => 400,
            Failure::ValidationFailure => 400,
            Failure::GenerationFailure => 500,
            Failure::BackendFailure => 500,
            Failure::StoreFailure => 500,
        }
    }

    /// The status code that an answer of this class bears: 404 for what is
    /// not found, 400 for what the client has to change, 500 for what
    /// failed inside.
    pub fn status(&self) -> (code: u16)
        ensures
            code == self.spec_status(),
    {
        match self {
            Failure::NotFound => 404,
            Failure::Conflict => 400,
            Failure::ValidationFailure => 400,
            Failure::GenerationFailure => 500,
            Failure::BackendFailure => 500,
            Failure::StoreFailure => 500,
        }
    }
}

/// Why the backend refused to create an object.
#[derive(Clone, Copy, Debug, PartialEq, Eq, Structural)]
pub enum BackendError {
    /// Something exists already where the object was to be created.
    AlreadyExists,
    /// The place where the object was to be created does not exist.
    NotFound,
    /// The backend denied access.
    PermissionDenied,
    /// Any other input or output failure.
    Other,
}

/// Why the metadata store refused a statement.
#[derive(Clone, Copy, Debug, PartialEq, Eq, Structural)]
pub enum StoreError {
    /// A row with the same primary key exists already.
    DuplicateId,
}

} // verus!
