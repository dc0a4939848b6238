//! The kinds of backend a medium can have.

use vstd::prelude::*;
use super::error::BuilderError;
use crate::schema::storage::{StorageLocal, StorageType};

verus! {

/// What a probe of the disk found at a path.
#[derive(Clone, Copy, Debug, PartialEq, Eq, Structural)]
pub enum PathState {
    /// Nothing exists at the path.
    Missing,
    /// A directory exists at the path.
    Directory,
    /// Something exists at the path that is no directory.
    NotDirectory,
}

/// What is left to do on the disk before a local backend can be used.
#[derive(Clone, Copy, Debug, PartialEq, Eq, Structural)]
pub enum Provision {
    /// The directory is there already.
    Nothing,
    /// The directory, and every missing ancestor of it, is to be created.
    CreateAll,
}

/// A backend that keeps its objects under a directory of the local disk.
#[derive(Debug)]
pub struct Local {
    pub path: String,
}

impl Local {
    /// Decides whether a local backend can be rooted at `path`, given what a
    /// probe of the disk `found` there. A path that holds something other than
    /// a directory is refused; a missing one is accepted and is to be created
    /// together with its missing ancestors.
    pub fn build(path: String, found: PathState) -> (built: Result<(Local, Provision), BuilderError>)
        ensures
            match built {
                Ok((local, provision)) => {
                    &&& found != PathState::NotDirectory
                    &&& local.path == path
                    &&& provision == if found == PathState::Missing {
                        Provision::CreateAll
                    } else {
                        Provision::Nothing
                    }
                },
                Err(error) => found == PathState::NotDirectory && error
                    == BuilderError::PathNotDirectory,
            },
    {
        match found {
            PathState::NotDirectory => Err(BuilderError::PathNotDirectory),
            PathState::Directory => Ok((Local { path }, Provision::Nothing)),
            PathState::Missing => Ok((Local { path }, Provision::CreateAll)),
        }
    }

    /// The public projection of this backend.
    pub fn into_model(self) -> (model: StorageLocal)
        ensures
            model.path == self.path,
    {
        StorageLocal { path: self.path }
    }
}

impl Clone for Local {
    fn clone(&self) -> (copy: Local)
        ensures
            copy == *self,
    {
        Local { path: self.path.clone() }
    }
}

/// The backend of a medium.
#[derive(Debug)]
pub enum Type {
    Local(Local),
}

impl Type {
    /// The root directory of a local backend.
    pub open spec fn root(self) -> Seq<char> {
        match self {
            Type::Local(local) => local.path@,
        }
    }

    /// The public projection of this backend.
    pub fn into_model(self) -> (model: StorageType)
        ensures
            model == (match self {
                Type::Local(local) => StorageType::Local(StorageLocal { path: local.path }),
            }),
            model.root() == self.root(),
    {
        match self {
            Type::Local(local) => StorageType::Local(local.into_model()),
        }
    }
}

impl Clone for Type {
    fn clone(&self) -> (copy: Type)
        ensures
            copy == *self,
    {
        match self {
            Type::Local(local) => Type::Local(local.clone()),
        }
    }
}

impl From<Local> for Type {
    fn from(local: Local) -> (backend: Type) {
        Type::Local(local)
    }
}

impl vstd::std_specs::convert::FromSpecImpl<Local> for Type {
    open spec fn obeys_from_spec() -> bool {
        true
    }

    open spec fn from_spec(local: Local) -> Type {
        Type::Local(local)
    }
}

} // verus!
