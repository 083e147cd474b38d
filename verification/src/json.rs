//! The JSON document tree and the few questions the adapter asks of it.
//!
//! A document is kept exactly as `serde_json` built it. Nothing in this crate
//! looks inside a `serde_json::Value`; every question goes through one of the
//! functions below, each of which makes a single call into `serde_json`. What
//! such a call answers is a function of its arguments alone, so each answer has
//! a name, and the contracts of the rest of the crate are stated over those
//! names. None of the contracts in this file is proved: they are what the crate
//! assumes of `serde_json`.

use vstd::prelude::*;

verus! {

/// A parsed JSON document, or a node of one: `serde_json::Value`.
#[verifier::external_type_specification]
#[verifier::external_body]
pub struct ExValue(serde_json::Value);

/// The parser's account of why a text is not JSON: `serde_json::Error`.
#[verifier::external_type_specification]
#[verifier::external_body]
pub struct ExError(serde_json::Error);

/// What `serde_json::from_str` makes of a text: the document, or the reason
/// the text is not one.
pub uninterp spec fn json_parse(text: Seq<char>) -> Result<serde_json::Value, serde_json::Error>;

/// The message that a parse error displays.
pub uninterp spec fn json_error_text(error: serde_json::Error) -> Seq<char>;

/// The node that a JSON Pointer addresses within a document, if there is one.
pub uninterp spec fn json_pointer(doc: serde_json::Value, path: Seq<char>) -> Option<
    serde_json::Value,
>;

/// The elements of an array node, in order; `None` for a node that is no array.
pub uninterp spec fn json_elements(node: serde_json::Value) -> Option<Seq<serde_json::Value>>;

/// The binary64 encoding of the value that a node yields when read as a
/// floating-point number; `None` where it yields none.
pub uninterp spec fn json_number_bits(node: serde_json::Value) -> Option<u64>;

/// The characters of a string node; `None` for a node that is no string.
pub uninterp spec fn json_text(node: serde_json::Value) -> Option<Seq<char>>;

/// Parses a text as one JSON value by `serde_json::from_str`.
///
/// Assumed: the outcome depends on the text alone, so it is `json_parse` of the
/// text.
#[verifier::external_body]
pub(crate) fn parse(text: &str) -> (r: Result<serde_json::Value, serde_json::Error>)
    ensures
        r == json_parse(text@),
{
    serde_json::from_str::<serde_json::Value>(text)
}

/// Renders a parse error by its `Display` impl (`to_string`).
///
/// Assumed: the message depends on the error alone, so it is `json_error_text`
/// of the error.
#[verifier::external_body]
pub(crate) fn error_text(error: &serde_json::Error) -> (r: String)
    ensures
        r@ == json_error_text(*error),
{
    error.to_string()
}

/// Follows a JSON Pointer by `serde_json::Value::pointer`.
///
/// Assumed: which node is found, if any, depends on the document and the path
/// alone, so it is `json_pointer` of the two.
#[verifier::external_body]
pub(crate) fn lookup<'a>(doc: &'a serde_json::Value, path: &str) -> (r: Option<
    &'a serde_json::Value,
>)
    ensures
        match r {
            Some(node) => json_pointer(*doc, path@) == Some(*node),
            None => json_pointer(*doc, path@) is None,
        },
{
    doc.pointer(path)
}

/// Reads an array node by `serde_json::Value::as_array` and copies its
/// elements out.
///
/// Assumed: the copy holds the node's elements in their order, which are
/// `json_elements` of the node, and a node that is no array gives `None`.
#[verifier::external_body]
pub(crate) fn elements(node: &serde_json::Value) -> (r: Option<Vec<serde_json::Value>>)
    ensures
        match r {
            Some(items) => json_elements(*node) == Some(items@),
            None => json_elements(*node) is None,
        },
{
    node.as_array().cloned()
}

/// Reads a node as a floating-point number by `serde_json::Value::as_f64` and
/// hands the number back as its binary64 encoding.
///
/// Assumed: the outcome depends on the node alone, so it is `json_number_bits`
/// of the node.
#[verifier::external_body]
pub(crate) fn number_bits(node: &serde_json::Value) -> (r: Option<u64>)
    ensures
        r == json_number_bits(*node),
{
    node.as_f64().map(|x| x.to_bits())
}

/// Reads a string node by `serde_json::Value::as_str` and copies the string.
///
/// Assumed: the copy holds the node's characters, which are `json_text` of the
/// node, and a node that is no string gives `None`.
#[verifier::external_body]
pub(crate) fn text(node: &serde_json::Value) -> (r: Option<String>)
    ensures
        match r {
            Some(s) => json_text(*node) == Some(s@),
            None => json_text(*node) is None,
        },
{
    node.as_str().map(|s| s.to_owned())
}

} // verus!
