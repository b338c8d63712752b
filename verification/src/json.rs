//! Diagnostic documents: the mathematical model of a JSON tree, and the few
//! operations of `serde_json` through which the library reads one.

use vstd::prelude::*;

verus! {

/// `serde_json::Value`: a parsed document, read only through the operations
/// below.
#[verifier::external_type_specification]
#[verifier::external_body]
pub struct ExValue(serde_json::Value);

/// `serde_json::Error`: why a text is no document. Carried, never inspected.
#[verifier::external_type_specification]
#[verifier::external_body]
pub struct ExJsonError(serde_json::Error);

/// A diagnostic document as a tree of values. No schema is assumed.
pub enum Document {
    Null,
    Bool(bool),
    /// A number written as an integer.
    Integer(int),
    /// Any other number; its value is never read.
    Real,
    Text(Seq<char>),
    Array(Seq<Document>),
    Object(Map<Seq<char>, Document>),
}

impl Document {
    /// The value stored under `key`, when this is an object that has the key.
    pub open spec fn member(self, key: Seq<char>) -> Option<Document> {
        match self {
            Document::Object(fields) => if fields.contains_key(key) {
                Some(fields[key])
            } else {
                None
            },
            _ => None,
        }
    }

    /// The value as a signed 64-bit integer, when it is an integer that fits.
    pub open spec fn as_integer(self) -> Option<i64> {
        match self {
            Document::Integer(n) => if i64::MIN <= n <= i64::MAX {
                Some(n as i64)
            } else {
                None
            },
            _ => None,
        }
    }

    /// The value two levels down, under `outer` and then `inner`, as an integer.
    pub open spec fn integer_at(self, outer: Seq<char>, inner: Seq<char>) -> Option<i64> {
        match self.member(outer) {
            Some(node) => match node.member(inner) {
                Some(leaf) => leaf.as_integer(),
                None => None,
            },
            None => None,
        }
    }
}

/// The tree that a `serde_json::Value` holds.
pub uninterp spec fn document_of(value: serde_json::Value) -> Document;

/// The tree that a text parses to with `serde_json::from_str`, or `None` where
/// the parser rejects the text.
pub uninterp spec fn parsed(text: Seq<char>) -> Option<Document>;

/// The tree behind an optional reference to a value.
pub open spec fn document_of_option(value: Option<&serde_json::Value>) -> Option<Document> {
    match value {
        Some(v) => Some(document_of(*v)),
        None => None,
    }
}

/// The trees that a sequence of values holds, in order.
pub open spec fn documents_of(values: Seq<serde_json::Value>) -> Seq<Document> {
    Seq::new(values.len(), |i: int| document_of(values[i]))
}

/// `serde_json::Value::get` with a string index: the member under `key` when
/// the value is an object that holds the key, `None` for a missing key and for
/// every value that is not an object.
#[verifier::external_body]
pub(crate) fn member<'a>(value: &'a serde_json::Value, key: &str) -> (found: Option<&'a serde_json::Value>)
    ensures
        document_of_option(found) == document_of(*value).member(key@),
{
    value.get(key)
}

/// `serde_json::Value::as_i64`: the number when the value is an integer that
/// fits a signed 64-bit integer, `None` for every other value.
#[verifier::external_body]
pub(crate) fn as_integer(value: &serde_json::Value) -> (number: Option<i64>)
    ensures
        number == document_of(*value).as_integer(),
{
    value.as_i64()
}

/// `serde_json::Value::as_array`: the elements in their stored order when the
/// value is an array, `None` for every other value.
#[verifier::external_body]
pub(crate) fn elements<'a>(value: &'a serde_json::Value) -> (items: Option<&'a Vec<serde_json::Value>>)
    ensures
        match items {
            Some(list) => document_of(*value) == Document::Array(documents_of(list@)),
            None => !(document_of(*value) is Array),
        },
{
    value.as_array()
}

/// Equality of a `serde_json::Value` with a string slice: true exactly when
/// the value is a string with the same characters.
#[verifier::external_body]
pub(crate) fn is_text(value: &serde_json::Value, text: &str) -> (same: bool)
    ensures
        same == (document_of(*value) == Document::Text(text@)),
{
    *value == *text
}

/// `serde_json::from_str` at type `Value`: the parsed tree, which depends on
/// the text alone, or the parser's error.
#[verifier::external_body]
pub(crate) fn parse(text: &str) -> (outcome: Result<serde_json::Value, serde_json::Error>)
    ensures
        match outcome {
            Ok(value) => parsed(text@) == Some(document_of(value)),
            Err(_) => parsed(text@) is None,
        },
{
    serde_json::from_str::<serde_json::Value>(text)
}

} // verus!
