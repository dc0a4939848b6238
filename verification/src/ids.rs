//! Identifiers of users, storage mediums and filesystem nodes.
//!
//! An identifier is minted outside this library, before the entity it names
//! is persisted, and is never reused. Here it is an opaque number that can
//! only be compared and carried along.

use vstd::prelude::*;
use crate::text::{
    digits_value, lemma_decimal_round_trip, parse_u64, render_i64, signed_decimal,
};

verus! {

/// The text form of an identifier: its number in decimal.
pub open spec fn id_text(value: i64) -> Seq<char> {
    signed_decimal(value as int)
}

/// The number of the identifier that a text stands for: the text must be
/// made of decimal digits alone and the number must fit.
pub open spec fn text_id(text: Seq<char>) -> Option<i64> {
    match digits_value(text) {
        Some(v) => if v <= i64::MAX {
            Some(v as i64)
        } else {
            None
        },
        None => None,
    }
}

/// The text form of an identifier that is not negative reads back as the
/// same identifier.
pub proof fn lemma_text_round_trip(value: i64)
    requires
        value >= 0,
    ensures
        text_id(id_text(value)) == Some(value),
{
    lemma_decimal_round_trip(value as nat);
}

fn parse_id(text: &str) -> (value: Option<i64>)
    ensures
        value == text_id(text@),
{
    match parse_u64(text) {
        Some(v) => if v <= i64::MAX as u64 {
            Some(v as i64)
        } else {
            None
        },
        None => None,
    }
}

/// Identifier of a user.
#[derive(Clone, Copy, Debug, PartialEq, Eq, Hash, Structural)]
pub struct UserId {
    pub value: i64,
}

impl UserId {
    /// Wraps the numeric form of an identifier.
    pub fn new(value: i64) -> (id: UserId)
        ensures
            id.value == value,
    {
        UserId { value }
    }

    /// The numeric form of the identifier.
    pub fn id(&self) -> (value: i64)
        ensures
            value == self.value,
    {
        self.value
    }

    /// The text form of the identifier.
    pub fn to_text(&self) -> (text: String)
        ensures
            text@ == id_text(self.value),
    {
        render_i64(self.value)
    }

    /// Reads an identifier from its text form.
    pub fn from_text(text: &str) -> (id: Option<UserId>)
        ensures
            id == (match text_id(text@) {
                Some(value) => Some(UserId { value }),
                None => None,
            }),
    {
        match parse_id(text) {
            Some(value) => Some(UserId { value }),
            None => None,
        }
    }
}

/// Identifier of a storage medium.
#[derive(Clone, Copy, Debug, PartialEq, Eq, Hash, Structural)]
pub struct StorageId {
    pub value: i64,
}

impl StorageId {
    /// Wraps the numeric form of an identifier.
    pub fn new(value: i64) -> (id: StorageId)
        ensures
            id.value == value,
    {
        StorageId { value }
    }

    /// The numeric form of the identifier.
    pub fn id(&self) -> (value: i64)
        ensures
            value == self.value,
    {
        self.value
    }

    /// The text form of the identifier.
    pub fn to_text(&self) -> (text: String)
        ensures
            text@ == id_text(self.value),
    {
        render_i64(self.value)
    }

    /// Reads an identifier from its text form.
    pub fn from_text(text: &str) -> (id: Option<StorageId>)
        ensures
            id == (match text_id(text@) {
                Some(value) => Some(StorageId { value }),
                None => None,
            }),
    {
        match parse_id(text) {
            Some(value) => Some(StorageId { value }),
            None => None,
        }
    }
}

/// Identifier of a filesystem node.
#[derive(Clone, Copy, Debug, PartialEq, Eq, Hash, Structural)]
pub struct FSId {
    pub value: i64,
}

impl FSId {
    /// Wraps the numeric form of an identifier.
    pub fn new(value: i64) -> (id: FSId)
        ensures
            id.value == value,
    {
        FSId { value }
    }

    /// The numeric form of the identifier.
    pub fn id(&self) -> (value: i64)
        ensures
            value == self.value,
    {
        self.value
    }

    /// The text form of the identifier.
    pub fn to_text(&self) -> (text: String)
        ensures
            text@ == id_text(self.value),
    {
        render_i64(self.value)
    }

    /// Reads an identifier from its text form.
    pub fn from_text(text: &str) -> (id: Option<FSId>)
        ensures
            id == (match text_id(text@) {
                Some(value) => Some(FSId { value }),
                None => None,
            }),
    {
        match parse_id(text) {
            Some(value) => Some(FSId { value }),
            None => None,
        }
    }
}

} // verus!
