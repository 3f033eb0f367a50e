//! JSON documents: the values of `serde_json`, the tree that models what
//! such a value holds, and the few operations on values that the rest of
//! the crate is built from.
//!
//! The values themselves are opaque to the verifier. Every function below
//! that touches one states its effect over [`json_tree`], and those
//! statements are taken on trust from `serde_json`; everything built on top
//! of them is proved.

use vstd::prelude::*;

verus! {

#[verifier::external_type_specification]
#[verifier::external_body]
pub struct ExValue(serde_json::Value);

#[verifier::external_type_specification]
#[verifier::external_body]
pub struct ExNumber(serde_json::Number);

/// Mathematical model of a JSON document.
pub enum JsonTree {
    Null,
    Bool(bool),
    Number(serde_json::Number),
    Text(Seq<char>),
    Array(Seq<JsonTree>),
    Object(Map<Seq<char>, JsonTree>),
}

impl JsonTree {
    /// The member stored under `key`, where this is an object that has one.
    pub open spec fn member(self, key: Seq<char>) -> Option<JsonTree> {
        match self {
            JsonTree::Object(fields) => if fields.contains_key(key) {
                Some(fields[key])
            } else {
                None
            },
            _ => None,
        }
    }

    /// The text of this document, where it is a string.
    pub open spec fn text(self) -> Option<Seq<char>> {
        match self {
            JsonTree::Text(text) => Some(text),
            _ => None,
        }
    }

    /// The elements of this document, where it is an array.
    pub open spec fn items(self) -> Option<Seq<JsonTree>> {
        match self {
            JsonTree::Array(items) => Some(items),
            _ => None,
        }
    }
}

/// The document that a JSON value holds.
pub uninterp spec fn json_tree(value: serde_json::Value) -> JsonTree;

/// What `serde_json` makes of a text: the document it parses to, or the
/// description of the first fault in it.
pub uninterp spec fn parsed_document(text: Seq<char>) -> Result<JsonTree, Seq<char>>;

/// The documents held by a sequence of values, in order.
pub open spec fn trees_of(values: Seq<serde_json::Value>) -> Seq<JsonTree> {
    values.map_values(|value: serde_json::Value| json_tree(value))
}

/// The fields that a list of entries defines: each key bound to the
/// document of its value.
pub open spec fn fields_of(entries: Seq<(String, serde_json::Value)>) -> Map<Seq<char>, JsonTree>
    decreases entries.len(),
{
    if entries.len() == 0 {
        Map::empty()
    } else {
        fields_of(entries.drop_last()).insert(entries.last().0@, json_tree(entries.last().1))
    }
}

/// No two entries share a key.
pub open spec fn distinct_keys(entries: Seq<(String, serde_json::Value)>) -> bool {
    forall|i: int, j: int| 0 <= i < j < entries.len() ==> entries[i].0@ != entries[j].0@
}

/// Parses a text as one JSON document, or describes the first fault in
/// it.
///
/// Trusted: calls `serde_json::from_str` at type `Value` and, where that
/// fails, takes the error's description by its `Display`. The claim is
/// only that the outcome is a function of the text: [`parsed_document`]
/// names it, with a value standing for the document it holds.
#[verifier::external_body]
pub(crate) fn parse_document(text: &str) -> (parsed: Result<serde_json::Value, String>)
    ensures
        match parsed {
            Ok(value) => parsed_document(text@) == Ok::<JsonTree, Seq<char>>(json_tree(value)),
            Err(fault) => parsed_document(text@) == Err::<JsonTree, Seq<char>>(fault@),
        },
{
    match serde_json::from_str(text) {
        Ok(value) => Ok(value),
        Err(error) => Err(error.to_string()),
    }
}

/// Looks up a member of an object by key.
///
/// Trusted: calls `serde_json::Value::get` with a string index, which
/// returns the entry of that key when the value is an object that has one,
/// and `None` for a missing key and for every value that is no object.
#[verifier::external_body]
pub(crate) fn member_of<'a>(value: &'a serde_json::Value, key: &str) -> (found: Option<
    &'a serde_json::Value,
>)
    ensures
        match found {
            Some(inner) => json_tree(*value).member(key@) == Some(json_tree(*inner)),
            None => json_tree(*value).member(key@) is None,
        },
{
    value.get(key)
}

/// The text of a value that is a string.
///
/// Trusted: calls `serde_json::Value::as_str`, which returns the string's
/// text exactly when the value is a string.
#[verifier::external_body]
pub(crate) fn text_of(value: &serde_json::Value) -> (text: Option<&str>)
    ensures
        match text {
            Some(slice) => json_tree(*value).text() == Some(slice@),
            None => json_tree(*value).text() is None,
        },
{
    value.as_str()
}

/// The elements of a value that is an array.
///
/// Trusted: calls `serde_json::Value::as_array`, which returns the vector
/// of elements exactly when the value is an array.
#[verifier::external_body]
pub(crate) fn items_of(value: &serde_json::Value) -> (items: Option<&Vec<serde_json::Value>>)
    ensures
        match items {
            Some(elements) => json_tree(*value).items() == Some(trees_of(elements@)),
            None => json_tree(*value).items() is None,
        },
{
    value.as_array()
}

/// A string value with the given text.
///
/// Trusted: builds `serde_json::Value::String`.
#[verifier::external_body]
pub(crate) fn text_value(text: String) -> (value: serde_json::Value)
    ensures
        json_tree(value) == JsonTree::Text(text@),
{
    serde_json::Value::String(text)
}

/// An array value with the given elements, in order.
///
/// Trusted: builds `serde_json::Value::Array`.
#[verifier::external_body]
pub(crate) fn array_value(items: Vec<serde_json::Value>) -> (value: serde_json::Value)
    ensures
        json_tree(value) == JsonTree::Array(trees_of(items@)),
{
    serde_json::Value::Array(items)
}

/// An object value with the given entries.
///
/// Trusted: calls the `FromIterator<(K, V)>` impl of `serde_json::Value`,
/// which collects the pairs into the map of an object. Which of two
/// entries with one key the map keeps is left open there, so such input is
/// excluded.
#[verifier::external_body]
pub(crate) fn object_value(entries: Vec<(String, serde_json::Value)>) -> (value: serde_json::Value)
    requires
        distinct_keys(entries@),
    ensures
        json_tree(value) == JsonTree::Object(fields_of(entries@)),
{
    entries.into_iter().collect()
}

} // verus!
