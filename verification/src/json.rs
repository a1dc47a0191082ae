//! The structured payload of a generation job: a JSON document as a tree of
//! plain values, and the calls that obtain one from the text of a reply.

use vstd::prelude::*;
use crate::text::str_eq;

verus! {

/// A JSON document. A number is kept as the text that displays it; an
/// object is a list of members, each a name and a value. In a document
/// that was read from a reply the members stand in the order of their
/// names, and no name occurs twice: of a name that the reply repeats, the
/// last value is kept. A list that is written by hand may hold a name more
/// than once; the first member of a name is then the one that is found.
#[derive(Debug, PartialEq, Eq)]
pub enum Json {
    Null,
    Bool(bool),
    Number(String),
    Text(String),
    Array(Vec<Json>),
    Object(Vec<(String, Json)>),
}

/// The value of the first member named `key` among `fields[from..]`.
pub open spec fn find_member(fields: Seq<(String, Json)>, key: Seq<char>, from: int) -> Option<Json>
    decreases fields.len() - from,
{
    if from < 0 || from >= fields.len() {
        None
    } else if fields[from].0@ == key {
        Some(fields[from].1)
    } else {
        find_member(fields, key, from + 1)
    }
}

impl Json {
    /// The characters of a string value; nothing for any other value.
    pub open spec fn text(self) -> Option<Seq<char>> {
        match self {
            Json::Text(s) => Some(s@),
            _ => None,
        }
    }

    /// The elements of an array; nothing for any other value.
    pub open spec fn items(self) -> Option<Seq<Json>> {
        match self {
            Json::Array(items) => Some(items@),
            _ => None,
        }
    }

    /// The member `key` of an object; nothing where the value is no object
    /// or has no such member.
    pub open spec fn member(self, key: Seq<char>) -> Option<Json> {
        match self {
            Json::Object(fields) => find_member(fields@, key, 0),
            _ => None,
        }
    }

    /// The string under `key`, where `key` names a member that is a string.
    pub open spec fn member_text(self, key: Seq<char>) -> Option<Seq<char>> {
        match self.member(key) {
            Some(value) => value.text(),
            None => None,
        }
    }

    /// The array under `key`, where `key` names a member that is an array.
    pub open spec fn member_items(self, key: Seq<char>) -> Option<Seq<Json>> {
        match self.member(key) {
            Some(value) => value.items(),
            None => None,
        }
    }

    /// The string, where the value is one.
    pub fn as_str(&self) -> (r: Option<&str>)
        ensures
            r matches Some(s) ==> self.text() == Some(s@),
            r is None ==> self.text() is None,
    {
        match self {
            Json::Text(s) => Some(s.as_str()),
            _ => None,
        }
    }

    /// The elements, where the value is an array.
    pub fn as_array(&self) -> (r: Option<&Vec<Json>>)
        ensures
            r matches Some(items) ==> self.items() == Some(items@),
            r is None ==> self.items() is None,
    {
        match self {
            Json::Array(items) => Some(items),
            _ => None,
        }
    }

    /// The member `key`, where the value is an object that has one.
    pub fn get(&self, key: &str) -> (r: Option<&Json>)
        ensures
            r matches Some(value) ==> self.member(key@) == Some(*value),
            r is None ==> self.member(key@) is None,
    {
        match self {
            Json::Object(fields) => {
                let mut i: usize = 0;
                while i < fields.len()
                    invariant
                        i <= fields.len(),
                        self.member(key@) == find_member(fields@, key@, i as int),
                    decreases fields.len() - i,
                {
                    let field = &fields[i];
                    if str_eq(field.0.as_str(), key) {
                        return Some(&field.1);
                    }
                    i += 1;
                }
                None
            },
            _ => None,
        }
    }

    /// The string member `key`, borrowed from the document.
    pub fn get_str(&self, key: &str) -> (r: Option<&str>)
        ensures
            r matches Some(s) ==> self.member_text(key@) == Some(s@),
            r is None ==> self.member_text(key@) is None,
    {
        match self.get(key) {
            Some(value) => value.as_str(),
            None => None,
        }
    }

    /// The array member `key`, borrowed from the document.
    pub fn get_array(&self, key: &str) -> (r: Option<&Vec<Json>>)
        ensures
            r matches Some(items) ==> self.member_items(key@) == Some(items@),
            r is None ==> self.member_items(key@) is None,
    {
        match self.get(key) {
            Some(value) => value.as_array(),
            None => None,
        }
    }
}

} // verus!
