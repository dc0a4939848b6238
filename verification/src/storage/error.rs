//! Ways in which building a storage medium can fail.

use vstd::prelude::*;
use crate::error::{Failure, StoreError};

verus! {

/// Why a medium could not be built.
#[derive(Clone, Copy, Debug, PartialEq, Eq, Structural)]
pub enum BuilderError {
    /// The user has an active medium of the requested name already.
    NameExists,
    /// The root of a local backend exists and is no directory.
    PathNotDirectory,
    /// The metadata store failed.
    Store(StoreError),
}

impl BuilderError {
    /// The class of the failure.
    pub fn class(&self) -> (class: Failure)
        ensures
            class == (match self {
                BuilderError::NameExists => Failure::Conflict,
                BuilderError::PathNotDirectory => Failure::BackendFailure,
                BuilderError::Store(_) => Failure::StoreFailure,
            }),
    {
        match self {
            BuilderError::NameExists => Failure::Conflict,
            BuilderError::PathNotDirectory => Failure::BackendFailure,
            BuilderError::Store(_) => Failure::StoreFailure,
        }
    }
}

} // verus!
