//! JSON documents as plain trees, and the way from a text to its tree.

use crate::text::same_text;
use vstd::prelude::*;

verus! {

/// A JSON value. A number is kept as the text that writes it.
#[derive(Debug, PartialEq, Eq)]
pub enum Json {
    Null,
    Bool(bool),
    Number(String),
    Text(String),
    Array(Vec<Json>),
    Object(Vec<Member>),
}

/// A member of a JSON object.
#[derive(Debug, PartialEq, Eq)]
pub struct Member {
    pub key: String,
    pub value: Json,
}

/// A parsed JSON value of `serde_json`.
#[verifier::external_type_specification]
#[verifier::external_body]
pub struct ExValue(serde_json::Value);

/// The error with which `serde_json` refuses a text.
#[verifier::external_type_specification]
#[verifier::external_body]
pub struct ExJsonError(serde_json::Error);

/// The tree that a parsed value of `serde_json` holds.
pub uninterp spec fn tree_of(value: serde_json::Value) -> Json;

/// The tree of the JSON document that a text writes, or `None` where the text
/// is no JSON document.
pub uninterp spec fn document_of(text: Seq<char>) -> Option<Json>;

/// `serde_json::from_str` parses a text as one JSON value and fails where the
/// text is none. The result depends on the text alone; the contract only
/// gives the tree of a parsed value its name.
#[verifier::external_body]
fn parse_value(text: &str) -> (r: Result<serde_json::Value, serde_json::Error>)
    ensures
        match r {
            Ok(value) => document_of(text@) == Some(tree_of(value)),
            Err(_) => document_of(text@) is None,
        },
{
    serde_json::from_str::<serde_json::Value>(text)
}

/// Copies a parsed value of `serde_json` into a tree, variant by variant: the
/// items of an array in their order, the members of an object in the order in
/// which its map hands them out.
#[verifier::external_body]
fn lift(value: &serde_json::Value) -> (tree: Json)
    ensures
        tree == tree_of(*value),
{
    match value {
        serde_json::Value::Null => Json::Null,
        serde_json::Value::Bool(b) => Json::Bool(*b),
        serde_json::Value::Number(n) => Json::Number(n.to_string()),
        serde_json::Value::String(s) => Json::Text(s.clone()),
        serde_json::Value::Array(items) => Json::Array(items.iter().map(lift).collect()),
        serde_json::Value::Object(members) => Json::Object(
            members.iter().map(|(k, v)| Member { key: k.clone(), value: lift(v) }).collect(),
        ),
    }
}

/// The value of the first member with the given key, if there is one.
pub open spec fn member_of(members: Seq<Member>, key: Seq<char>) -> Option<Json>
    decreases members.len(),
{
    if members.len() == 0 {
        None
    } else if members.first().key@ == key {
        Some(members.first().value)
    } else {
        member_of(members.drop_first(), key)
    }
}

/// Looking a key up among the members from the `n`-th on gives what looking it
/// up among all of them gives, where none of the first `n` has the key.
proof fn lemma_member_of_skip(members: Seq<Member>, key: Seq<char>, n: int)
    requires
        0 <= n <= members.len(),
        forall|i: int| 0 <= i < n ==> (#[trigger] members[i]).key@ != key,
    ensures
        member_of(members, key) == member_of(members.skip(n), key),
    decreases n,
{
    if n > 0 {
        assert(members.drop_first().skip(n - 1) =~= members.skip(n));
        lemma_member_of_skip(members.drop_first(), key, n - 1);
    } else {
        assert(members.skip(0) =~= members);
    }
}

/// The place of the first member with the given key, if there is one.
fn position_of(members: &Vec<Member>, key: &str) -> (r: Option<usize>)
    ensures
        match r {
            Some(i) => i < members@.len() && member_of(members@, key@) == Some(
                members@[i as int].value,
            ),
            None => member_of(members@, key@) is None,
        },
{
    let mut i: usize = 0;
    while i < members.len()
        invariant
            i <= members.len(),
            forall|k: int| 0 <= k < i ==> (#[trigger] members@[k]).key@ != key@,
        decreases members.len() - i,
    {
        if same_text(members[i].key.as_str(), key) {
            proof {
                lemma_member_of_skip(members@, key@, i as int);
            }
            return Some(i);
        }
        i += 1;
    }
    proof {
        lemma_member_of_skip(members@, key@, members@.len() as int);
    }
    None
}

impl Json {
    /// The value under `key`, where this is an object that has such a member.
    pub open spec fn member(self, key: Seq<char>) -> Option<Json> {
        match self {
            Json::Object(members) => member_of(members@, key),
            _ => None,
        }
    }

    /// The items, where this is an array.
    pub open spec fn items(self) -> Option<Seq<Json>> {
        match self {
            Json::Array(items) => Some(items@),
            _ => None,
        }
    }

    /// The characters, where this is a text.
    pub open spec fn text(self) -> Option<Seq<char>> {
        match self {
            Json::Text(text) => Some(text@),
            _ => None,
        }
    }

    /// The value under `key`, where this is an object that has such a member.
    pub fn get(&self, key: &str) -> (r: Option<&Json>)
        ensures
            match r {
                Some(value) => self.member(key@) == Some(*value),
                None => self.member(key@) is None,
            },
    {
        match self {
            Json::Object(members) => match position_of(members, key) {
                Some(i) => Some(&members[i].value),
                None => None,
            },
            _ => None,
        }
    }

    /// The items, where this is an array.
    pub fn as_array(&self) -> (r: Option<&Vec<Json>>)
        ensures
            match r {
                Some(items) => self.items() == Some(items@),
                None => self.items() is None,
            },
    {
        match self {
            Json::Array(items) => Some(items),
            _ => None,
        }
    }

    /// The characters, where this is a text.
    pub fn as_str(&self) -> (r: Option<&str>)
        ensures
            match r {
                Some(text) => self.text() == Some(text@),
                None => self.text() is None,
            },
    {
        match self {
            Json::Text(text) => Some(text.as_str()),
            _ => None,
        }
    }

    /// Parses a text as a JSON document.
    pub fn parse(text: &str) -> (r: Option<Json>)
        ensures
            r == document_of(text@),
    {
        match parse_value(text) {
            Ok(value) => Some(lift(&value)),
            Err(_) => None,
        }
    }
}

} // verus!
