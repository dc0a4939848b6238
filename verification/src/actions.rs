//! What a client may ask to change.

use vstd::prelude::*;
use crate::tags::{opt_tags, TagMap};
use crate::text::opt_text;

verus! {

/// A change of the backend of a medium.
#[derive(Clone, Copy, Debug, PartialEq, Eq, Structural)]
pub enum UpdateStorageType {
    Local,
}

/// A change of a medium: each part is changed only where it is given.
#[derive(Debug)]
pub struct UpdateStorage {
    pub name: Option<String>,
    pub type_: Option<UpdateStorageType>,
    pub tags: Option<TagMap>,
}

/// A change of a medium over plain values.
pub struct UpdateStorageView {
    pub name: Option<Seq<char>>,
    pub type_: Option<UpdateStorageType>,
    pub tags: Option<Map<Seq<char>, Option<Seq<char>>>>,
}

impl UpdateStorageView {
    /// Whether the change asks for anything.
    pub open spec fn has_work(self) -> bool {
        self.name is Some || self.type_ is Some || self.tags is Some
    }

    /// Whether the change touches the row of the medium: its name or its
    /// backend.
    pub open spec fn changes_row(self) -> bool {
        self.name is Some || self.type_ is Some
    }

    /// Whether the change touches the tags of the medium.
    pub open spec fn changes_tags(self) -> bool {
        self.tags is Some
    }
}

impl View for UpdateStorage {
    type V = UpdateStorageView;

    open spec fn view(&self) -> UpdateStorageView {
        UpdateStorageView {
            name: opt_text(self.name),
            type_: self.type_,
            tags: opt_tags(self.tags),
        }
    }
}

impl UpdateStorage {
    /// Whether the change asks for anything.
    pub fn has_work(&self) -> (work: bool)
        ensures
            work == self@.has_work(),
    {
        self.name.is_some() || self.type_.is_some() || self.tags.is_some()
    }

    /// Whether the change touches the row of the medium: its name or its
    /// backend. Only such a change records the instant of the update.
    pub fn changes_row(&self) -> (changes: bool)
        ensures
            changes == self@.changes_row(),
    {
        self.name.is_some() || self.type_.is_some()
    }

    /// Whether the change touches the tags of the medium.
    pub fn changes_tags(&self) -> (changes: bool)
        ensures
            changes == self@.changes_tags(),
    {
        self.tags.is_some()
    }
}

} // verus!
