//! From a response body to the rows of the sheet.
//!
//! A body is the guard prefix followed by a JSON document, and the rows are
//! the array at `table.rows` within that document. Each step has one failure:
//! a body without the prefix, a text that is not JSON, a document without an
//! array at that place.

use crate::envelope::{has_envelope, payload, strip_envelope};
use crate::error::{ScanError, ScanErrorView};
use crate::json::{
    elements, error_text, json_elements, json_error_text, json_parse, json_pointer, lookup, parse,
};
use vstd::prelude::*;

verus! {

/// The rows of a sheet, or why there are none.
pub type RowsOutcome = Result<Seq<serde_json::Value>, ScanErrorView>;

/// The view of what the functions of this module return.
pub open spec fn rows_outcome(r: Result<Vec<serde_json::Value>, ScanError>) -> RowsOutcome {
    match r {
        Ok(rows) => Ok(rows@),
        Err(e) => Err(e@),
    }
}

/// The JSON Pointer to the array of rows within a document.
pub open spec fn rows_path() -> Seq<char> {
    "/table/rows"@
}

/// The elements of the node at `table.rows`, where that node is an array.
pub open spec fn found_rows(doc: serde_json::Value) -> Option<Seq<serde_json::Value>> {
    match json_pointer(doc, rows_path()) {
        None => None,
        Some(node) => json_elements(node),
    }
}

/// The rows that were found, or `MissingRows`.
pub open spec fn rows_or_missing_of(found: Option<Seq<serde_json::Value>>) -> RowsOutcome {
    match found {
        Some(rows) => Ok(rows),
        None => Err(ScanErrorView::MissingRows),
    }
}

/// The rows of a document.
pub open spec fn document_rows(doc: serde_json::Value) -> RowsOutcome {
    rows_or_missing_of(found_rows(doc))
}

/// The rows that a response body holds.
///
/// The prefix is looked at first: a body without it is refused whatever else
/// it holds, and only what follows the prefix is ever parsed.
pub open spec fn body_rows(body: Seq<char>) -> RowsOutcome {
    if !has_envelope(body) {
        Err(ScanErrorView::InvalidEnvelope)
    } else {
        match json_parse(payload(body)) {
            Err(error) => Err(ScanErrorView::MalformedJson(json_error_text(error))),
            Ok(doc) => document_rows(doc),
        }
    }
}

/// Gives the rows that were found, or fails with `MissingRows`.
pub fn rows_or_missing(found: Option<Vec<serde_json::Value>>) -> (r: Result<
    Vec<serde_json::Value>,
    ScanError,
>)
    ensures
        rows_outcome(r) == rows_or_missing_of(
            match found {
                Some(rows) => Some(rows@),
                None => None,
            },
        ),
{
    match found {
        Some(rows) => Ok(rows),
        None => Err(ScanError::MissingRows),
    }
}

/// Takes the rows out of a parsed document. Fails with `MissingRows` if the
/// document has nothing at `table.rows`, or something that is no array.
pub fn document_rows_of(doc: &serde_json::Value) -> (r: Result<Vec<serde_json::Value>, ScanError>)
    ensures
        rows_outcome(r) == document_rows(*doc),
{
    let found = match lookup(doc, "/table/rows") {
        None => None,
        Some(node) => elements(node),
    };
    rows_or_missing(found)
}

/// Takes the rows out of a response body.
pub fn extract_rows(body: &str) -> (r: Result<Vec<serde_json::Value>, ScanError>)
    ensures
        rows_outcome(r) == body_rows(body@),
{
    match strip_envelope(body) {
        None => Err(ScanError::InvalidEnvelope),
        Some(rest) => match parse(rest) {
            Err(error) => Err(ScanError::MalformedJson(error_text(&error))),
            Ok(doc) => document_rows_of(&doc),
        },
    }
}

/// A body that does not open with the guard prefix is refused as such,
/// whatever the parser would make of it or of any part of it.
pub proof fn lemma_envelope_is_checked_first(body: Seq<char>)
    requires
        !has_envelope(body),
    ensures
        body_rows(body) == Err::<Seq<serde_json::Value>, ScanErrorView>(
            ScanErrorView::InvalidEnvelope,
        ),
{
}

} // verus!
