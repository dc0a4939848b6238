//! Public projections of a storage medium: a summary for listings and a full
//! view for detail fetches.

use vstd::prelude::*;
use crate::ids::{StorageId, UserId};
use crate::tags::TagMap;
use crate::time::Timestamp;

verus! {

/// A medium backed by a directory on the local disk.
#[derive(Debug)]
pub struct StorageLocal {
    pub path: String,
}

/// The backend of a medium, as shown to the outside.
#[derive(Debug)]
pub enum StorageType {
    Local(StorageLocal),
}

impl StorageType {
    /// The root directory of a local backend.
    pub open spec fn root(self) -> Seq<char> {
        match self {
            StorageType::Local(local) => local.path@,
        }
    }
}

/// What a listing shows of a medium: no timestamps.
#[derive(Debug)]
pub struct StorageListItem {
    pub id: StorageId,
    pub name: String,
    pub user_id: UserId,
    pub type_: StorageType,
    pub tags: TagMap,
}

/// The summary of a medium, over plain values.
pub struct StorageListItemView {
    pub id: StorageId,
    pub name: Seq<char>,
    pub user_id: UserId,
    pub root: Seq<char>,
    pub tags: Map<Seq<char>, Option<Seq<char>>>,
}

impl View for StorageListItem {
    type V = StorageListItemView;

    open spec fn view(&self) -> StorageListItemView {
        StorageListItemView {
            id: self.id,
            name: self.name@,
            user_id: self.user_id,
            root: self.type_.root(),
            tags: self.tags@,
        }
    }
}

/// What a detail fetch shows of a medium.
#[derive(Debug)]
pub struct StorageItem {
    pub id: StorageId,
    pub name: String,
    pub user_id: UserId,
    pub type_: StorageType,
    pub tags: TagMap,
    pub created: Timestamp,
    pub updated: Option<Timestamp>,
    pub deleted: Option<Timestamp>,
}

/// A medium in full, over plain values.
pub struct StorageItemView {
    pub id: StorageId,
    pub name: Seq<char>,
    pub user_id: UserId,
    pub root: Seq<char>,
    pub tags: Map<Seq<char>, Option<Seq<char>>>,
    pub created: Timestamp,
    pub updated: Option<Timestamp>,
    pub deleted: Option<Timestamp>,
}

impl StorageItemView {
    /// The part of the full view that a listing shows.
    pub open spec fn summary(self) -> StorageListItemView {
        StorageListItemView {
            id: self.id,
            name: self.name,
            user_id: self.user_id,
            root: self.root,
            tags: self.tags,
        }
    }
}

impl View for StorageItem {
    type V = StorageItemView;

    open spec fn view(&self) -> StorageItemView {
        StorageItemView {
            id: self.id,
            name: self.name@,
            user_id: self.user_id,
            root: self.type_.root(),
            tags: self.tags@,
            created: self.created,
            updated: self.updated,
            deleted: self.deleted,
        }
    }
}

} // verus!
