//! Ways in which building or reading a filesystem node can fail.

use vstd::prelude::*;
use crate::error::{BackendError, Failure, StoreError};

verus! {

/// Why a node could not be built.
#[derive(Clone, Copy, Debug, PartialEq, Eq, Structural)]
pub enum BuilderError {
    /// An active sibling bears the requested basename.
    BasenameExists,
    /// No free basename was found within the allowed number of attempts.
    BasenameGenFailed,
    /// The backend failed to create the physical object.
    Backend(BackendError),
    /// The metadata store failed.
    Store(StoreError),
}

impl BuilderError {
    /// The class of the failure.
    pub fn class(&self) -> (class: Failure)
        ensures
            class == (match self {
                BuilderError::BasenameExists => Failure::Conflict,
                BuilderError::BasenameGenFailed => Failure::GenerationFailure,
                BuilderError::Backend(_) => Failure::BackendFailure,
                BuilderError::Store(_) => Failure::StoreFailure,
            }),
    {
        match self {
            BuilderError::BasenameExists => Failure::Conflict,
            BuilderError::BasenameGenFailed => Failure::GenerationFailure,
            BuilderError::Backend(_) => Failure::BackendFailure,
            BuilderError::Store(_) => Failure::StoreFailure,
        }
    }
}

/// Why a persisted row could not be read as a node.
#[derive(Clone, Copy, Debug, PartialEq, Eq, Structural)]
pub enum ItemError {
    /// The row's kind is none of the known kinds.
    UnexpectedType(i16),
    /// The row of a file records no size.
    MissingSize,
    /// The row of a file records no content hash of the right width.
    InvalidHash,
}

/// Why a path was not accepted as a directory.
#[derive(Debug)]
pub enum ValidateError {
    /// Nothing exists at the path.
    NotFound(String),
    /// What exists at the path is no directory.
    NotADirectory(String),
    /// The disk failed in another way.
    Backend(BackendError),
}

impl ValidateError {
    /// The class of the failure.
    pub fn class(&self) -> (class: Failure)
        ensures
            class == (match self {
                ValidateError::NotFound(_) => Failure::NotFound,
                ValidateError::NotADirectory(_) => Failure::BackendFailure,
                ValidateError::Backend(_) => Failure::BackendFailure,
            }),
    {
        match self {
            ValidateError::NotFound(_) => Failure::NotFound,
            ValidateError::NotADirectory(_) => Failure::BackendFailure,
            ValidateError::Backend(_) => Failure::BackendFailure,
        }
    }
}

} // verus!
