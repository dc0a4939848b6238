//! Files.

use vstd::prelude::*;
use crate::ids::{FSId, UserId};
use crate::path::{join, joined};
use crate::schema;
use crate::storage::fs::Storage;
use crate::tags::TagMap;
use crate::text::{clone_opt_text, opt_text};
use crate::time::Timestamp;
use super::checksum::{blake3_digest, ContentHash};
use super::consts::FILE_TYPE;
use super::record::{Record, RecordView, Row, RowView};

verus! {

/// The media type of a file. Type and subtype are known or unknown
/// independently of each other.
#[derive(Debug)]
pub struct Mime {
    pub type_: Option<String>,
    pub subtype: Option<String>,
}

impl Clone for Mime {
    fn clone(&self) -> (copy: Mime)
        ensures
            copy == *self,
    {
        Mime { type_: clone_opt_text(&self.type_), subtype: clone_opt_text(&self.subtype) }
    }
}

/// A file: a named entry of a directory, or of the medium's root, with a
/// size, a media type and the hash of its content.
#[derive(Debug)]
pub struct File {
    pub id: FSId,
    pub user_id: UserId,
    pub storage: Storage,
    pub parent: Option<FSId>,
    pub basename: String,
    pub path: String,
    pub mime: Mime,
    pub size: u64,
    pub hash: ContentHash,
    pub tags: TagMap,
    pub comment: Option<String>,
    pub created: Timestamp,
    pub updated: Option<Timestamp>,
    pub deleted: Option<Timestamp>,
}

/// A file over plain values.
pub struct FileView {
    pub id: FSId,
    pub user_id: UserId,
    pub storage: Storage,
    pub parent: Option<FSId>,
    pub basename: Seq<char>,
    pub path: Seq<char>,
    pub mime_type: Option<Seq<char>>,
    pub mime_subtype: Option<Seq<char>>,
    pub size: u64,
    pub hash: Seq<u8>,
    pub tags: Map<Seq<char>, Option<Seq<char>>>,
    pub comment: Option<Seq<char>>,
    pub created: Timestamp,
    pub updated: Option<Timestamp>,
    pub deleted: Option<Timestamp>,
}

impl FileView {
    /// The path of the file inside its medium.
    pub open spec fn full_path(self) -> Seq<char> {
        joined(self.path, self.basename)
    }

    /// The row and tags that persist this file.
    pub open spec fn record(self) -> RecordView {
        RecordView {
            row: RowView {
                id: self.id,
                user_id: self.user_id,
                parent: self.parent,
                basename: self.basename,
                fs_type: FILE_TYPE,
                path: self.path,
                size: Some(self.size),
                mime_type: self.mime_type,
                mime_subtype: self.mime_subtype,
                hash: Some(self.hash),
                storage: self.storage,
                comment: self.comment,
                created: self.created,
                updated: self.updated,
                deleted: self.deleted,
            },
            tags: self.tags,
        }
    }

    /// The file that a well-formed row of the file kind, with its tags,
    /// stands for.
    pub open spec fn of(row: RowView, tags: Map<Seq<char>, Option<Seq<char>>>) -> FileView {
        FileView {
            id: row.id,
            user_id: row.user_id,
            storage: row.storage,
            parent: row.parent,
            basename: row.basename,
            path: row.path,
            mime_type: row.mime_type,
            mime_subtype: row.mime_subtype,
            size: row.size->0,
            hash: row.hash->0,
            tags,
            comment: row.comment,
            created: row.created,
            updated: row.updated,
            deleted: row.deleted,
        }
    }
}

impl View for File {
    type V = FileView;

    open spec fn view(&self) -> FileView {
        FileView {
            id: self.id,
            user_id: self.user_id,
            storage: self.storage,
            parent: self.parent,
            basename: self.basename@,
            path: self.path@,
            mime_type: opt_text(self.mime.type_),
            mime_subtype: opt_text(self.mime.subtype),
            size: self.size,
            hash: self.hash@,
            tags: self.tags@,
            comment: opt_text(self.comment),
            created: self.created,
            updated: self.updated,
            deleted: self.deleted,
        }
    }
}

impl File {
    /// The identifier of the file.
    pub fn id(&self) -> (id: &FSId)
        ensures
            *id == self.id,
    {
        &self.id
    }

    /// The path of the file inside its medium: its stored path, then its
    /// basename.
    pub fn full_path(&self) -> (path: String)
        ensures
            path@ == self@.full_path(),
    {
        join(self.path.as_str(), self.basename.as_str())
    }

    /// Checks content that was read back against what the file records of
    /// it: the content is intact when it has the recorded size and its hash
    /// is the recorded hash.
    pub fn verifies(&self, content: &[u8]) -> (intact: bool)
        ensures
            intact == (content@.len() == self.size && self.hash@ == blake3_digest(content@)),
    {
        if content.len() as u64 != self.size {
            return false;
        }
        self.hash.verifies(content)
    }

    /// The row and tags that persist this file.
    pub fn to_record(&self) -> (record: Record)
        ensures
            record@ == self@.record(),
    {
        Record {
            row: Row {
                id: self.id,
                user_id: self.user_id,
                parent: self.parent,
                basename: self.basename.clone(),
                fs_type: FILE_TYPE,
                path: self.path.clone(),
                size: Some(self.size),
                mime_type: clone_opt_text(&self.mime.type_),
                mime_subtype: clone_opt_text(&self.mime.subtype),
                hash: Some(self.hash.to_bytes()),
                storage: self.storage,
                comment: clone_opt_text(&self.comment),
                created: self.created,
                updated: self.updated,
                deleted: self.deleted,
            },
            tags: self.tags.clone(),
        }
    }

    /// The public projection of the file.
    pub fn into_schema(self) -> (model: schema::fs::File)
        ensures
            model@ == self@,
    {
        schema::fs::File {
            id: self.id,
            user_id: self.user_id,
            storage: self.storage.into_schema(),
            parent: self.parent,
            basename: self.basename,
            path: self.path,
            mime: self.mime,
            size: self.size,
            hash: self.hash,
            tags: self.tags,
            comment: self.comment,
            created: self.created,
            updated: self.updated,
            deleted: self.deleted,
        }
    }
}

} // verus!
