//! JSON documents as plain values, parsed by serde_json.
use crate::model::OutdatedError;
use vstd::prelude::*;

verus! {

/// A JSON document as plain values; an object holds its entries in the order
/// that serde_json's map yields them, each key once.
#[derive(Debug)]
pub enum Json {
    /// `null`.
    Null,
    /// `true` or `false`.
    Bool(bool),
    /// A number, kept as the text serde_json renders for it.
    Number(String),
    /// A string.
    Str(String),
    /// An array, in order.
    Array(Vec<Json>),
    /// An object, as its entries.
    Object(Vec<(String, Json)>),
}

/// Whether serde_json accepts a text as a JSON document.
pub uninterp spec fn json_text_accepted(s: Seq<char>) -> bool;

/// The document that serde_json reads from an accepted text.
pub uninterp spec fn json_of_text(s: Seq<char>) -> Json;

/// Relies on `serde_json::from_str` into `serde_json::Value`: whether the text
/// is accepted, and the value read from it, depend on the text alone. The
/// value is handed back as a [`Json`] tree by [`tree_of_value`].
#[verifier::external_body]
fn parse_tree(s: &str) -> (r: Result<Json, serde_json::Error>)
    ensures
        r is Ok == json_text_accepted(s@),
        r matches Ok(j) ==> j == json_of_text(s@),
{
    serde_json::from_str::<serde_json::Value>(s).map(tree_of_value)
}

/// Relies on the variants of `serde_json::Value`, on `Number`'s `Display` and
/// on the entries of `serde_json::Map`: rebuilds a value as a [`Json`] tree,
/// variant by variant, moving each field.
#[verifier::external_body]
fn tree_of_value(v: serde_json::Value) -> Json {
    match v {
        serde_json::Value::Null => Json::Null,
        serde_json::Value::Bool(b) => Json::Bool(b),
        serde_json::Value::Number(n) => Json::Number(n.to_string()),
        serde_json::Value::String(s) => Json::Str(s),
        serde_json::Value::Array(a) => Json::Array(a.into_iter().map(tree_of_value).collect()),
        serde_json::Value::Object(m) => Json::Object(
            m.into_iter().map(|(k, x)| (k, tree_of_value(x))).collect(),
        ),
    }
}

/// Relies on `serde::de::Error::custom` for `serde_json::Error`: an error that
/// carries the message.
#[verifier::external_body]
pub(crate) fn schema_error(msg: &str) -> serde_json::Error {
    <serde_json::Error as serde::de::Error>::custom(msg)
}

/// Parses a text as a JSON document: the document serde_json reads from it,
/// or `Error::SerdeJsonError` exactly when serde_json refuses the text.
pub fn parse_json(s: &str) -> (r: Result<Json, OutdatedError>)
    ensures
        json_text_accepted(s@) ==> r == Ok::<Json, OutdatedError>(json_of_text(s@)),
        !json_text_accepted(s@) ==> r matches Err(OutdatedError::SerdeJsonError(_)),
{
    match parse_tree(s) {
        Ok(j) => Ok(j),
        Err(e) => Err(OutdatedError::SerdeJsonError(e)),
    }
}

} // verus!
