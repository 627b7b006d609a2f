//! JSON documents as values of the library, and their parser.
//!
//! The manifests of the Epic launchers are JSON. They are parsed by
//! `serde_json`; what it returns is copied into [`Json`], on which the probes
//! do their lookups.

use vstd::prelude::*;
use crate::text::same_text;

verus! {

/// A JSON value.
#[derive(Debug)]
pub enum Json {
    Null,
    Bool(bool),
    /// A number, kept as its decimal text.
    Number(String),
    Text(String),
    Array(Vec<Json>),
    /// An object: its members as pairs of key and value.
    Object(Vec<(String, Json)>),
}

#[verifier::external_type_specification]
#[verifier::external_body]
pub struct ExJsonValue(serde_json::Value);

/// The document that the bytes parse to, or `None` where they are not one
/// JSON value.
pub uninterp spec fn json_document(bytes: Seq<u8>) -> Option<Json>;

/// Copies a parsed value into the library's type, variant by variant.
///
/// Trusted: matches on `serde_json::Value`. A number is kept as the text
/// that `serde_json::Number` displays; the members of an object come in the
/// order in which `serde_json::Map` iterates.
#[verifier::external_body]
fn json_of_value(value: &serde_json::Value) -> Json {
    match value {
        serde_json::Value::Null => Json::Null,
        serde_json::Value::Bool(b) => Json::Bool(*b),
        serde_json::Value::Number(n) => Json::Number(n.to_string()),
        serde_json::Value::String(s) => Json::Text(s.clone()),
        serde_json::Value::Array(items) => Json::Array(items.iter().map(json_of_value).collect()),
        serde_json::Value::Object(members) => Json::Object(
            members.iter().map(|(k, v)| (k.clone(), json_of_value(v))).collect(),
        ),
    }
}

/// Parses bytes as one JSON document.
///
/// Trusted: calls `serde_json::from_slice` for a `serde_json::Value`. The
/// contract claims only that the outcome is a function of the bytes.
#[verifier::external_body]
fn parse_value(bytes: &[u8]) -> (doc: Option<Json>)
    ensures
        doc == json_document(bytes@),
{
    match serde_json::from_slice::<serde_json::Value>(bytes) {
        Ok(value) => Some(json_of_value(&value)),
        Err(_) => None,
    }
}

/// The value of the first member with the given key.
pub open spec fn find_member(members: Seq<(String, Json)>, key: Seq<char>) -> Option<Json>
    decreases members.len(),
{
    if members.len() == 0 {
        None
    } else if members[0].0@ == key {
        Some(members[0].1)
    } else {
        find_member(members.drop_first(), key)
    }
}

/// The member of an object under the given key; `None` for a value that is
/// no object or has no such member.
pub open spec fn member_of(doc: Json, key: Seq<char>) -> Option<Json> {
    match doc {
        Json::Object(members) => find_member(members@, key),
        _ => None,
    }
}

/// The element of an array at the given position; `None` for a value that
/// is no array or is shorter.
pub open spec fn element_of(doc: Json, index: int) -> Option<Json> {
    match doc {
        Json::Array(items) => if 0 <= index < items@.len() {
            Some(items@[index])
        } else {
            None
        },
        _ => None,
    }
}

/// The characters of a JSON string; `None` for any other value.
pub open spec fn text_of(doc: Json) -> Option<Seq<char>> {
    match doc {
        Json::Text(s) => Some(s@),
        _ => None,
    }
}

/// The text of the member under the given key, where the value is an object
/// and that member is a string.
pub open spec fn member_text_of(doc: Json, key: Seq<char>) -> Option<Seq<char>> {
    match member_of(doc, key) {
        Some(value) => text_of(value),
        None => None,
    }
}

impl Json {
    /// Parses bytes as one JSON document.
    pub fn parse(bytes: &[u8]) -> (doc: Option<Json>)
        ensures
            doc == json_document(bytes@),
    {
        parse_value(bytes)
    }

    /// Looks up a member of an object by its key.
    pub fn member(&self, key: &str) -> (found: Option<&Json>)
        ensures
            match found {
                Some(value) => member_of(*self, key@) == Some(*value),
                None => member_of(*self, key@) is None,
            },
    {
        match self {
            Json::Object(members) => {
                let mut i: usize = 0;
                assert(members@.skip(0) =~= members@);
                while i < members.len()
                    invariant
                        i <= members@.len(),
                        member_of(*self, key@) == find_member(members@, key@),
                        find_member(members@, key@) == find_member(members@.skip(i as int), key@),
                    decreases members@.len() - i,
                {
                    assert(members@.skip(i as int).drop_first() =~= members@.skip(i + 1));
                    assert(members@.skip(i as int)[0] == members@[i as int]);
                    if same_text(members[i].0.as_str(), key) {
                        return Some(&members[i].1);
                    }
                    i += 1;
                }
                None
            },
            _ => None,
        }
    }

    /// Looks up an element of an array by its position.
    pub fn element(&self, index: usize) -> (found: Option<&Json>)
        ensures
            match found {
                Some(value) => element_of(*self, index as int) == Some(*value),
                None => element_of(*self, index as int) is None,
            },
    {
        match self {
            Json::Array(items) => {
                if index < items.len() {
                    Some(&items[index])
                } else {
                    None
                }
            },
            _ => None,
        }
    }

    /// The string that this value is, if it is one.
    pub fn text(&self) -> (found: Option<&String>)
        ensures
            match found {
                Some(s) => text_of(*self) == Some(s@),
                None => text_of(*self) is None,
            },
    {
        match self {
            Json::Text(s) => Some(s),
            _ => None,
        }
    }

    /// The string under the given key of an object.
    pub fn member_text(&self, key: &str) -> (found: Option<&String>)
        ensures
            match found {
                Some(s) => member_text_of(*self, key@) == Some(s@),
                None => member_text_of(*self, key@) is None,
            },
    {
        match self.member(key) {
            Some(value) => value.text(),
            None => None,
        }
    }
}

} // verus!
