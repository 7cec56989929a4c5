//! A plain model of a JSON document, as far as the session logic reads one.
//!
//! The remote service answers in JSON. The session logic looks members up by
//! name and reads texts, lists and flags; it never reads a negative or a
//! fractional number, so those are kept without their value.

use vstd::prelude::*;
use crate::text::str_eq;

verus! {

/// A JSON value.
#[derive(Debug, PartialEq, Eq)]
pub enum Json {
    Null,
    Bool(bool),
    /// An integer from zero up to `u64::MAX`.
    Unsigned(u64),
    /// Any other number: a negative or a fractional one.
    OtherNumber,
    Text(String),
    Array(Vec<Json>),
    /// The members of an object, each name at most once.
    Object(Vec<(String, Json)>),
}

/// The value of the first member of `entries` that is called `key`.
pub open spec fn member(entries: Seq<(String, Json)>, key: Seq<char>) -> Option<Json>
    decreases entries.len(),
{
    if entries.len() == 0 {
        None
    } else if entries[0].0@ == key {
        Some(entries[0].1)
    } else {
        member(entries.drop_first(), key)
    }
}

impl Json {
    /// The member `key` of an object; `None` for anything else.
    pub open spec fn spec_get(&self, key: Seq<char>) -> Option<Json> {
        match self {
            Json::Object(entries) => member(entries@, key),
            _ => None,
        }
    }

    /// The characters of a text; `None` for anything else.
    pub open spec fn spec_text(&self) -> Option<Seq<char>> {
        match self {
            Json::Text(s) => Some(s@),
            _ => None,
        }
    }

    /// The items of a list; `None` for anything else.
    pub open spec fn spec_items(&self) -> Option<Seq<Json>> {
        match self {
            Json::Array(items) => Some(items@),
            _ => None,
        }
    }

    /// The value of a flag; `None` for anything else.
    pub open spec fn spec_flag(&self) -> Option<bool> {
        match self {
            Json::Bool(b) => Some(*b),
            _ => None,
        }
    }

    /// The value of a non-negative integer; `None` for anything else.
    pub open spec fn spec_unsigned(&self) -> Option<u64> {
        match self {
            Json::Unsigned(n) => Some(*n),
            _ => None,
        }
    }

    /// The member `key`, where it is an object.
    pub open spec fn spec_get_object(&self, key: Seq<char>) -> Option<Json> {
        match self.spec_get(key) {
            Some(Json::Object(entries)) => Some(Json::Object(entries)),
            _ => None,
        }
    }

    /// The characters of the member `key`, where it is a text.
    pub open spec fn spec_get_text(&self, key: Seq<char>) -> Option<Seq<char>> {
        match self.spec_get(key) {
            Some(value) => value.spec_text(),
            None => None,
        }
    }

    /// The items of the member `key`, where it is a list.
    pub open spec fn spec_get_items(&self, key: Seq<char>) -> Option<Seq<Json>> {
        match self.spec_get(key) {
            Some(value) => value.spec_items(),
            None => None,
        }
    }

    /// The value of the member `key`, where it is a flag.
    pub open spec fn spec_get_flag(&self, key: Seq<char>) -> Option<bool> {
        match self.spec_get(key) {
            Some(value) => value.spec_flag(),
            None => None,
        }
    }

    /// The value of the member `key`, where it is a non-negative integer.
    pub open spec fn spec_get_unsigned(&self, key: Seq<char>) -> Option<u64> {
        match self.spec_get(key) {
            Some(value) => value.spec_unsigned(),
            None => None,
        }
    }

    /// Looks the member `key` up in an object.
    pub fn get(&self, key: &str) -> (r: Option<&Json>)
        ensures
            match r {
                Some(value) => self.spec_get(key@) == Some(*value),
                None => self.spec_get(key@) is None,
            },
    {
        match self {
            Json::Object(entries) => {
                let mut i: usize = 0;
                assert(entries@.subrange(0, entries@.len() as int) == entries@);
                while i < entries.len()
                    invariant
                        i <= entries.len(),
                        self.spec_get(key@) == member(
                            entries@.subrange(i as int, entries@.len() as int),
                            key@,
                        ),
                    decreases entries.len() - i,
                {
                    assert(entries@.subrange(i as int, entries@.len() as int)[0] == entries@[i as int]);
                    if str_eq(entries[i].0.as_str(), key) {
                        return Some(&entries[i].1);
                    }
                    assert(entries@.subrange(i as int, entries@.len() as int).drop_first()
                        == entries@.subrange(i + 1, entries@.len() as int));
                    i = i + 1;
                }
                None
            },
            _ => None,
        }
    }

    /// Reads a text.
    pub fn as_str(&self) -> (r: Option<&str>)
        ensures
            match r {
                Some(s) => self.spec_text() == Some(s@),
                None => self.spec_text() is None,
            },
    {
        match self {
            Json::Text(s) => Some(s.as_str()),
            _ => None,
        }
    }

    /// Reads a list.
    pub fn as_array(&self) -> (r: Option<&Vec<Json>>)
        ensures
            match r {
                Some(items) => self.spec_items() == Some(items@),
                None => self.spec_items() is None,
            },
    {
        match self {
            Json::Array(items) => Some(items),
            _ => None,
        }
    }

    /// Reads a flag.
    pub fn as_bool(&self) -> (r: Option<bool>)
        ensures
            r == self.spec_flag(),
    {
        match self {
            Json::Bool(b) => Some(*b),
            _ => None,
        }
    }

    /// Reads a non-negative integer.
    pub fn as_u64(&self) -> (r: Option<u64>)
        ensures
            r == self.spec_unsigned(),
    {
        match self {
            Json::Unsigned(n) => Some(*n),
            _ => None,
        }
    }

    /// The member `key`, where it is an object.
    pub fn get_object(&self, key: &str) -> (r: Option<&Json>)
        ensures
            match r {
                Some(value) => self.spec_get_object(key@) == Some(*value),
                None => self.spec_get_object(key@) is None,
            },
    {
        match self.get(key) {
            Some(value) => match value {
                Json::Object(_) => Some(value),
                _ => None,
            },
            None => None,
        }
    }

    /// The member `key`, where it is a text.
    pub fn get_str(&self, key: &str) -> (r: Option<&str>)
        ensures
            match r {
                Some(s) => self.spec_get_text(key@) == Some(s@),
                None => self.spec_get_text(key@) is None,
            },
    {
        match self.get(key) {
            Some(value) => value.as_str(),
            None => None,
        }
    }

    /// The member `key`, where it is a list.
    pub fn get_array(&self, key: &str) -> (r: Option<&Vec<Json>>)
        ensures
            match r {
                Some(items) => self.spec_get_items(key@) == Some(items@),
                None => self.spec_get_items(key@) is None,
            },
    {
        match self.get(key) {
            Some(value) => value.as_array(),
            None => None,
        }
    }

    /// The member `key`, where it is a flag.
    pub fn get_bool(&self, key: &str) -> (r: Option<bool>)
        ensures
            r == self.spec_get_flag(key@),
    {
        match self.get(key) {
            Some(value) => value.as_bool(),
            None => None,
        }
    }

    /// The member `key`, where it is a non-negative integer.
    pub fn get_u64(&self, key: &str) -> (r: Option<u64>)
        ensures
            r == self.spec_get_unsigned(key@),
    {
        match self.get(key) {
            Some(value) => value.as_u64(),
            None => None,
        }
    }
}

} // verus!
