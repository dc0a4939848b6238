//! What a filesystem node records of the medium it lives on.

use vstd::prelude::*;
use crate::ids::StorageId;

verus! {

/// Backend state of a node on a local medium.
#[derive(Clone, Copy, Debug, PartialEq, Eq, Structural)]
pub struct Local {
    pub id: StorageId,
}

/// The medium a node lives on, with what the node keeps of that backend.
#[derive(Clone, Copy, Debug, PartialEq, Eq, Structural)]
pub enum Storage {
    Local(Local),
}

impl Storage {
    /// The medium that the node lives on.
    pub open spec fn medium(self) -> StorageId {
        match self {
            Storage::Local(local) => local.id,
        }
    }

    /// The public projection of the reference.
    pub fn into_schema(self) -> (model: crate::schema::fs::Storage)
        ensures
            model.state() == self,
    {
        match self {
            Storage::Local(local) => crate::schema::fs::Storage::Local { id: local.id },
        }
    }

    /// The public projection of the reference.
    pub fn into_model(self) -> (model: crate::schema::fs::Storage)
        ensures
            model.state() == self,
    {
        self.into_schema()
    }

    /// The identifier of the medium that the node lives on.
    pub fn id(&self) -> (id: &StorageId)
        ensures
            *id == self.medium(),
    {
        match self {
            Storage::Local(local) => &local.id,
        }
    }
}

} // verus!
