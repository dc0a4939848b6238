//! Refusals that a client gets to see.

use vstd::prelude::*;
use crate::error::Failure;

verus! {

/// Why a request was refused.
#[derive(Clone, Copy, Debug, PartialEq, Eq, Structural)]
pub enum Error {
    /// The medium does not exist, belongs to someone else, or is deleted.
    StorageNotFound,
    /// The update asks for no change.
    NoWork,
    /// Another active medium of the user bears the requested name.
    StorageNameExists,
}

impl Error {
    /// The class of the refusal.
    pub fn class(&self) -> (class: Failure)
        ensures
            class == self.spec_class(),
    {
        match self {
            Error::StorageNotFound => Failure::NotFound,
            Error::NoWork => Failure::ValidationFailure,
            Error::StorageNameExists => Failure::Conflict,
        }
    }

    /// The class of the refusal.
    pub open spec fn spec_class(self) -> Failure {
        match self {
            Error::StorageNotFound => Failure::NotFound,
            Error::NoWork => Failure::ValidationFailure,
            Error::StorageNameExists => Failure::Conflict,
        }
    }

    /// The status code of the answer: that of the refusal's class.
    pub fn status(&self) -> (code: u16)
        ensures
            code == self.spec_class().spec_status(),
    {
        self.class().status()
    }

    /// The name of the refusal.
    pub fn kind(&self) -> (kind: &'static str)
        ensures
            kind@ == (match self {
                Error::StorageNotFound => "StorageNotFound"@,
                Error::NoWork => "NoWork"@,
                Error::StorageNameExists => "StorageNameExists"@,
            }),
    {
        match self {
            Error::StorageNotFound => "StorageNotFound",
            Error::NoWork => "NoWork",
            Error::StorageNameExists => "StorageNameExists",
        }
    }

    /// The sentence that tells the client what went wrong.
    pub fn message(&self) -> (message: &'static str)
        ensures
            message@ == (match self {
                Error::StorageNotFound => "requested storage item was not found"@,
                Error::NoWork => "requested update with no changes"@,
                Error::StorageNameExists => "requested storage name already exists"@,
            }),
    {
        match self {
            Error::StorageNotFound => "requested storage item was not found",
            Error::NoWork => "requested update with no changes",
            Error::StorageNameExists => "requested storage name already exists",
        }
    }
}

} // verus!
