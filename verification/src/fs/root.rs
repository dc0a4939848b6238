//! The root of a medium's tree.

use vstd::prelude::*;
use crate::ids::{FSId, UserId};
use crate::storage::fs::Storage;
use crate::tags::TagMap;
use crate::text::{clone_opt_text, opt_text};
use crate::time::Timestamp;
use crate::schema;
use super::consts::ROOT_TYPE;
use super::record::{Record, RecordView, Row, RowView};

verus! {

/// The node that every other node of a medium descends from. It has no
/// parent and no name, and its path is empty.
#[derive(Debug)]
pub struct Root {
    pub id: FSId,
    pub user_id: UserId,
    pub storage: Storage,
    pub tags: TagMap,
    pub comment: Option<String>,
    pub created: Timestamp,
    pub updated: Option<Timestamp>,
    pub deleted: Option<Timestamp>,
}

/// A root over plain values.
pub struct RootView {
    pub id: FSId,
    pub user_id: UserId,
    pub storage: Storage,
    pub tags: Map<Seq<char>, Option<Seq<char>>>,
    pub comment: Option<Seq<char>>,
    pub created: Timestamp,
    pub updated: Option<Timestamp>,
    pub deleted: Option<Timestamp>,
}

impl RootView {
    /// The row and tags that persist this root.
    pub open spec fn record(self) -> RecordView {
        RecordView {
            row: RowView {
                id: self.id,
                user_id: self.user_id,
                parent: None,
                basename: Seq::empty(),
                fs_type: ROOT_TYPE,
                path: Seq::empty(),
                size: None,
                mime_type: None,
                mime_subtype: None,
                hash: None,
                storage: self.storage,
                comment: self.comment,
                created: self.created,
                updated: self.updated,
                deleted: self.deleted,
            },
            tags: self.tags,
        }
    }

    /// The root that a row of the root kind, with its tags, stands for.
    pub open spec fn of(row: RowView, tags: Map<Seq<char>, Option<Seq<char>>>) -> RootView {
        RootView {
            id: row.id,
            user_id: row.user_id,
            storage: row.storage,
            tags,
            comment: row.comment,
            created: row.created,
            updated: row.updated,
            deleted: row.deleted,
        }
    }
}

impl View for Root {
    type V = RootView;

    open spec fn view(&self) -> RootView {
        RootView {
            id: self.id,
            user_id: self.user_id,
            storage: self.storage,
            tags: self.tags@,
            comment: opt_text(self.comment),
            created: self.created,
            updated: self.updated,
            deleted: self.deleted,
        }
    }
}

impl Root {
    /// The identifier of the root.
    pub fn id(&self) -> (id: &FSId)
        ensures
            *id == self.id,
    {
        &self.id
    }

    /// The path of the root inside its medium: the empty path.
    pub fn full_path(&self) -> (path: String)
        ensures
            path@ == Seq::<char>::empty(),
    {
        String::new()
    }

    /// The row and tags that persist this root.
    pub fn to_record(&self) -> (record: Record)
        ensures
            record@ == self@.record(),
    {
        Record {
            row: Row {
                id: self.id,
                user_id: self.user_id,
                parent: None,
                basename: String::new(),
                fs_type: ROOT_TYPE,
                path: String::new(),
                size: None,
                mime_type: None,
                mime_subtype: None,
                hash: None,
                storage: self.storage,
                comment: clone_opt_text(&self.comment),
                created: self.created,
                updated: self.updated,
                deleted: self.deleted,
            },
            tags: self.tags.clone(),
        }
    }

    /// The public projection of the root.
    pub fn into_schema(self) -> (model: schema::fs::Root)
        ensures
            model@ == self@,
    {
        schema::fs::Root {
            id: self.id,
            user_id: self.user_id,
            storage: self.storage.into_schema(),
            tags: self.tags,
            comment: self.comment,
            created: self.created,
            updated: self.updated,
            deleted: self.deleted,
        }
    }
}

} // verus!
