//! Public projections of filesystem nodes.

use vstd::prelude::*;
use crate::fs::checksum::ContentHash;
use crate::fs::directory::DirectoryView;
use crate::fs::file::{FileView, Mime};
use crate::fs::root::RootView;
use crate::fs::ItemView;
use crate::ids::{FSId, StorageId, UserId};
use crate::tags::TagMap;
use crate::text::opt_text;
use crate::time::Timestamp;

verus! {

/// The medium a node lives on, as shown to the outside.
#[derive(Clone, Copy, Debug, PartialEq, Eq, Structural)]
pub enum Storage {
    Local { id: StorageId },
}

impl Storage {
    /// The same reference in the form that nodes keep.
    pub open spec fn state(self) -> crate::storage::fs::Storage {
        match self {
            Storage::Local { id } => crate::storage::fs::Storage::Local(
                crate::storage::fs::Local { id },
            ),
        }
    }
}

/// A root, as shown to the outside.
#[derive(Debug)]
pub struct Root {
    pub id: FSId,
    pub user_id: UserId,
    pub storage: Storage,
    pub tags: TagMap,
    pub comment: Option<String>,
    pub created: Timestamp,
    pub updated: Option<Timestamp>,
    pub deleted: Option<Timestamp>,
}

impl View for Root {
    type V = RootView;

    open spec fn view(&self) -> RootView {
        RootView {
            id: self.id,
            user_id: self.user_id,
            storage: self.storage.state(),
            tags: self.tags@,
            comment: opt_text(self.comment),
            created: self.created,
            updated: self.updated,
            deleted: self.deleted,
        }
    }
}

/// A directory, as shown to the outside: the directory itself, then the
/// number of its entries and those of them that the answer carries.
#[derive(Debug)]
pub struct Directory {
    pub id: FSId,
    pub user_id: UserId,
    pub storage: Storage,
    pub parent: Option<FSId>,
    pub basename: String,
    pub path: String,
    pub tags: TagMap,
    pub comment: Option<String>,
    pub total: usize,
    pub contents: Vec<Item>,
    pub created: Timestamp,
    pub updated: Option<Timestamp>,
    pub deleted: Option<Timestamp>,
}

impl View for Directory {
    type V = DirectoryView;

    open spec fn view(&self) -> DirectoryView {
        DirectoryView {
            id: self.id,
            user_id: self.user_id,
            storage: self.storage.state(),
            parent: self.parent,
            basename: self.basename@,
            path: self.path@,
            tags: self.tags@,
            comment: opt_text(self.comment),
            created: self.created,
            updated: self.updated,
            deleted: self.deleted,
        }
    }
}

/// A file, as shown to the outside.
#[derive(Debug)]
pub struct File {
    pub id: FSId,
    pub user_id: UserId,
    pub storage: Storage,
    pub parent: Option<FSId>,
    pub basename: String,
    pub path: String,
    pub mime: Mime,
    pub size: u64,
    pub hash: ContentHash,
    pub tags: TagMap,
    pub comment: Option<String>,
    pub created: Timestamp,
    pub updated: Option<Timestamp>,
    pub deleted: Option<Timestamp>,
}

impl View for File {
    type V = FileView;

    open spec fn view(&self) -> FileView {
        FileView {
            id: self.id,
            user_id: self.user_id,
            storage: self.storage.state(),
            parent: self.parent,
            basename: self.basename@,
            path: self.path@,
            mime_type: opt_text(self.mime.type_),
            mime_subtype: opt_text(self.mime.subtype),
            size: self.size,
            hash: self.hash@,
            tags: self.tags@,
            comment: opt_text(self.comment),
            created: self.created,
            updated: self.updated,
            deleted: self.deleted,
        }
    }
}

/// A node of any kind, as shown to the outside.
#[derive(Debug)]
pub enum Item {
    Root(Root),
    Directory(Directory),
    File(File),
}

impl View for Item {
    type V = ItemView;

    open spec fn view(&self) -> ItemView {
        match self {
            Item::Root(root) => ItemView::Root(root@),
            Item::Directory(dir) => ItemView::Directory(dir@),
            Item::File(file) => ItemView::File(file@),
        }
    }
}

impl Item {
    /// Whether this is a directory shown without any of its entries.
    pub open spec fn is_bare(self) -> bool {
        self matches Item::Directory(dir) ==> dir.total == 0 && dir.contents@.len() == 0
    }
}

} // verus!
