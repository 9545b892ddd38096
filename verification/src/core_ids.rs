//! Identifiers that the session core uses: plain UUIDs, by their number.

use vstd::prelude::*;

use crate::ids::{format_uuid, parse_uuid, uuid_text, uuid_value};

verus! {

/// Identifies a session of the core.
#[derive(Debug, Clone, Copy, PartialEq, Eq, Structural, Hash)]
pub struct SessionId {
    pub value: u128,
}

/// Identifies a turn of the core.
#[derive(Debug, Clone, Copy, PartialEq, Eq, Structural, Hash)]
pub struct TurnId {
    pub value: u128,
}

/// Identifies an item of the core.
#[derive(Debug, Clone, Copy, PartialEq, Eq, Structural, Hash)]
pub struct ItemId {
    pub value: u128,
}

impl SessionId {
    /// The identifier in hyphenated form.
    pub fn to_text(&self) -> (result: String)
        ensures
            result@ == uuid_text(self.value),
            uuid_value(result@) == Some(self.value),
    {
        format_uuid(self.value)
    }

    /// Reads an identifier from a text.
    pub fn parse(text: &str) -> (result: Option<SessionId>)
        ensures
            result == match uuid_value(text@) {
                Some(value) => Some(SessionId { value }),
                None => None,
            },
    {
        match parse_uuid(text) {
            Some(value) => Some(SessionId { value }),
            None => None,
        }
    }
}

impl TurnId {
    /// The identifier in hyphenated form.
    pub fn to_text(&self) -> (result: String)
        ensures
            result@ == uuid_text(self.value),
            uuid_value(result@) == Some(self.value),
    {
        format_uuid(self.value)
    }

    /// Reads an identifier from a text.
    pub fn parse(text: &str) -> (result: Option<TurnId>)
        ensures
            result == match uuid_value(text@) {
                Some(value) => Some(TurnId { value }),
                None => None,
            },
    {
        match parse_uuid(text) {
            Some(value) => Some(TurnId { value }),
            None => None,
        }
    }
}

impl ItemId {
    /// The identifier in hyphenated form.
    pub fn to_text(&self) -> (result: String)
        ensures
            result@ == uuid_text(self.value),
            uuid_value(result@) == Some(self.value),
    {
        format_uuid(self.value)
    }
}

} // verus!
