//! Nodes as the metadata store keeps them: one row per node, whatever its
//! kind, and the node's tags beside it.

use vstd::prelude::*;
use crate::ids::{FSId, UserId};
use crate::storage::fs::Storage;
use crate::tags::TagMap;
use crate::text::{clone_opt_text, opt_text};
use crate::time::Timestamp;

verus! {

/// What optional stored bytes hold.
pub open spec fn opt_bytes(b: Option<Vec<u8>>) -> Option<Seq<u8>> {
    match b {
        Some(v) => Some(v@),
        None => None,
    }
}

/// A copy of optional stored bytes.
pub fn clone_opt_bytes(b: &Option<Vec<u8>>) -> (copy: Option<Vec<u8>>)
    ensures
        opt_bytes(copy) == opt_bytes(*b),
{
    match b {
        Some(v) => {
            let mut out: Vec<u8> = Vec::new();
            let mut i: usize = 0;
            while i < v.len()
                invariant
                    i <= v.len(),
                    out@.len() == i,
                    forall|j: int| 0 <= j < i ==> out@[j] == v@[j],
                decreases v.len() - i,
            {
                out.push(v[i]);
                i += 1;
            }
            assert(out@ =~= v@);
            Some(out)
        },
        None => None,
    }
}

/// The persisted row of a node. `fs_type` tells which kind of node the row
/// stands for; the columns that a kind does not use are empty.
#[derive(Debug)]
pub struct Row {
    pub id: FSId,
    pub user_id: UserId,
    pub parent: Option<FSId>,
    pub basename: String,
    pub fs_type: i16,
    pub path: String,
    pub size: Option<u64>,
    pub mime_type: Option<String>,
    pub mime_subtype: Option<String>,
    pub hash: Option<Vec<u8>>,
    pub storage: Storage,
    pub comment: Option<String>,
    pub created: Timestamp,
    pub updated: Option<Timestamp>,
    pub deleted: Option<Timestamp>,
}

/// A row over plain values.
pub struct RowView {
    pub id: FSId,
    pub user_id: UserId,
    pub parent: Option<FSId>,
    pub basename: Seq<char>,
    pub fs_type: i16,
    pub path: Seq<char>,
    pub size: Option<u64>,
    pub mime_type: Option<Seq<char>>,
    pub mime_subtype: Option<Seq<char>>,
    pub hash: Option<Seq<u8>>,
    pub storage: Storage,
    pub comment: Option<Seq<char>>,
    pub created: Timestamp,
    pub updated: Option<Timestamp>,
    pub deleted: Option<Timestamp>,
}

impl View for Row {
    type V = RowView;

    open spec fn view(&self) -> RowView {
        RowView {
            id: self.id,
            user_id: self.user_id,
            parent: self.parent,
            basename: self.basename@,
            fs_type: self.fs_type,
            path: self.path@,
            size: self.size,
            mime_type: opt_text(self.mime_type),
            mime_subtype: opt_text(self.mime_subtype),
            hash: opt_bytes(self.hash),
            storage: self.storage,
            comment: opt_text(self.comment),
            created: self.created,
            updated: self.updated,
            deleted: self.deleted,
        }
    }
}

impl Clone for Row {
    fn clone(&self) -> (copy: Row)
        ensures
            copy@ == self@,
    {
        Row {
            id: self.id,
            user_id: self.user_id,
            parent: self.parent,
            basename: self.basename.clone(),
            fs_type: self.fs_type,
            path: self.path.clone(),
            size: self.size,
            mime_type: clone_opt_text(&self.mime_type),
            mime_subtype: clone_opt_text(&self.mime_subtype),
            hash: clone_opt_bytes(&self.hash),
            storage: self.storage,
            comment: clone_opt_text(&self.comment),
            created: self.created,
            updated: self.updated,
            deleted: self.deleted,
        }
    }
}

/// A node as persisted: its row and its tags.
#[derive(Debug)]
pub struct Record {
    pub row: Row,
    pub tags: TagMap,
}

/// A persisted node over plain values.
pub struct RecordView {
    pub row: RowView,
    pub tags: Map<Seq<char>, Option<Seq<char>>>,
}

impl View for Record {
    type V = RecordView;

    open spec fn view(&self) -> RecordView {
        RecordView { row: self.row@, tags: self.tags@ }
    }
}

impl Clone for Record {
    fn clone(&self) -> (copy: Record)
        ensures
            copy@ == self@,
    {
        Record { row: self.row.clone(), tags: self.tags.clone() }
    }
}

} // verus!
