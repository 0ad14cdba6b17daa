//! JSON documents, read through `serde_json`.
//!
//! A parsed document is a `serde_json::Value`. Contracts speak of it through
//! its tree, [`JsonTree`], which mirrors the variants of `Value`.

use vstd::prelude::*;

verus! {

/// A JSON document as a mathematical tree.
pub enum JsonTree {
    /// `null`.
    Null,
    /// `true` or `false`.
    Bool(bool),
    /// A number, with the integer that it holds where it holds one.
    Number(Option<int>),
    /// A string.
    Text(Seq<char>),
    /// An array.
    Array(Seq<JsonTree>),
    /// An object: its members by name.
    Object(Map<Seq<char>, JsonTree>),
}

/// `serde_json::Value`: a parsed JSON document. The verifier sees nothing
/// inside it; contracts speak of its tree.
#[verifier::external_type_specification]
#[verifier::external_body]
pub struct ExValue(serde_json::Value);

/// The tree of a parsed document.
pub uninterp spec fn tree_of(value: serde_json::Value) -> JsonTree;

/// The tree that `serde_json::from_str` reads from a text, where it accepts
/// the text as one JSON document.
pub uninterp spec fn parsed(text: Seq<char>) -> Option<JsonTree>;

/// The member of an object under a name.
pub open spec fn member_of(tree: JsonTree, name: Seq<char>) -> Option<JsonTree> {
    match tree {
        JsonTree::Object(members) => if members.contains_key(name) {
            Some(members[name])
        } else {
            None
        },
        _ => None,
    }
}

/// The characters of a string.
pub open spec fn text_of(tree: JsonTree) -> Option<Seq<char>> {
    match tree {
        JsonTree::Text(text) => Some(text),
        _ => None,
    }
}

/// The value of a boolean.
pub open spec fn bool_of(tree: JsonTree) -> Option<bool> {
    match tree {
        JsonTree::Bool(value) => Some(value),
        _ => None,
    }
}

/// The value of a number that holds an integer of 0 or more.
pub open spec fn unsigned_of(tree: JsonTree) -> Option<int> {
    match tree {
        JsonTree::Number(Some(value)) => if value >= 0 {
            Some(value)
        } else {
            None
        },
        _ => None,
    }
}

/// Whether the tree is an object without members.
pub open spec fn is_empty_object(tree: JsonTree) -> bool {
    tree matches JsonTree::Object(members) && forall|name: Seq<char>|
        !members.contains_key(name)
}

/// The string member of an object under a name.
pub open spec fn text_at(tree: JsonTree, name: Seq<char>) -> Option<Seq<char>> {
    match member_of(tree, name) {
        Some(found) => text_of(found),
        None => None,
    }
}

/// The boolean member of an object under a name.
pub open spec fn bool_at(tree: JsonTree, name: Seq<char>) -> Option<bool> {
    match member_of(tree, name) {
        Some(found) => bool_of(found),
        None => None,
    }
}

/// Whether a list holds the members of an object: each once, under its
/// name, in some order.
pub open spec fn lists_members(
    entries: Seq<(String, serde_json::Value)>,
    members: Map<Seq<char>, JsonTree>,
) -> bool {
    &&& forall|i: int|
        0 <= i < entries.len() ==> members.contains_key(#[trigger] entries[i].0@) && tree_of(
            entries[i].1,
        ) == members[entries[i].0@]
    &&& forall|i: int, j: int|
        0 <= i < j < entries.len() ==> #[trigger] entries[i].0@ != #[trigger] entries[j].0@
    &&& forall|name: Seq<char>| #[trigger]
        members.contains_key(name) ==> exists|i: int|
            0 <= i < entries.len() && #[trigger] entries[i].0@ == name
}

/// Calls `serde_json::from_str` to read a text as a `Value`. The result is
/// the document that `parsed` names for the text, and `None` where the text
/// is refused.
#[verifier::external_body]
pub(crate) fn parse(text: &str) -> (r: Option<serde_json::Value>)
    ensures
        parsed(text@) == (match r {
            Some(value) => Some(tree_of(value)),
            None => None,
        }),
{
    serde_json::from_str::<serde_json::Value>(text).ok()
}

/// Calls `Value::get` with a string index: the member under that name where
/// the value is an object that has one, else `None`.
#[verifier::external_body]
pub(crate) fn member<'a>(value: &'a serde_json::Value, name: &str) -> (r: Option<
    &'a serde_json::Value,
>)
    ensures
        member_of(tree_of(*value), name@) == (match r {
            Some(found) => Some(tree_of(*found)),
            None => None,
        }),
{
    value.get(name)
}

/// Calls `Value::as_str`: the characters where the value is a string, else
/// `None`.
#[verifier::external_body]
pub(crate) fn text<'a>(value: &'a serde_json::Value) -> (r: Option<&'a str>)
    ensures
        text_of(tree_of(*value)) == (match r {
            Some(characters) => Some(characters@),
            None => None,
        }),
{
    value.as_str()
}

/// Calls `Value::as_bool`: the value where it is a boolean, else `None`.
#[verifier::external_body]
pub(crate) fn boolean(value: &serde_json::Value) -> (r: Option<bool>)
    ensures
        r == bool_of(tree_of(*value)),
{
    value.as_bool()
}

/// Calls `Value::as_u64`: the integer where the value is a number that holds
/// one of 0 or more, else `None`.
#[verifier::external_body]
pub(crate) fn unsigned(value: &serde_json::Value) -> (r: Option<u64>)
    ensures
        unsigned_of(tree_of(*value)) == (match r {
            Some(number) => Some(number as int),
            None => None,
        }),
{
    value.as_u64()
}

/// Calls `Value::is_null`: whether the value is `null`.
#[verifier::external_body]
pub(crate) fn null(value: &serde_json::Value) -> (r: bool)
    ensures
        r == (tree_of(*value) is Null),
{
    value.is_null()
}

/// Calls `Value::as_object` and `Map::iter`, and clones each entry: the
/// members of an object, each once, in the order in which the map hands them
/// out; `None` where the value is no object.
#[verifier::external_body]
pub(crate) fn members(value: &serde_json::Value) -> (r: Option<Vec<(String, serde_json::Value)>>)
    ensures
        match tree_of(*value) {
            JsonTree::Object(object) => r matches Some(entries) && lists_members(
                entries@,
                object,
            ),
            _ => r is None,
        },
{
    value.as_object().map(
        |object| object.iter().map(|(name, found)| (name.clone(), found.clone())).collect(),
    )
}

/// Whether a document is an object without members.
pub fn empty_object(value: &serde_json::Value) -> (r: bool)
    ensures
        r == is_empty_object(tree_of(*value)),
{
    match members(value) {
        Some(entries) => {
            if entries.len() == 0 {
                true
            } else {
                assert(member_of(tree_of(*value), entries[0].0@) is Some);
                false
            }
        },
        None => false,
    }
}

/// The string member of an object under a name, as an owned string.
pub fn text_member(value: &serde_json::Value, name: &str) -> (r: Option<String>)
    ensures
        text_at(tree_of(*value), name@) == (match r {
            Some(characters) => Some(characters@),
            None => None,
        }),
{
    match member(value, name) {
        Some(found) => match text(found) {
            Some(characters) => Some(characters.to_string()),
            None => None,
        },
        None => None,
    }
}

/// The boolean member of an object under a name.
pub fn bool_member(value: &serde_json::Value, name: &str) -> (r: Option<bool>)
    ensures
        r == bool_at(tree_of(*value), name@),
{
    match member(value, name) {
        Some(found) => boolean(found),
        None => None,
    }
}

} // verus!
