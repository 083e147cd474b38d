//! The ways a scan can fail.

use vstd::prelude::*;

verus! {

/// An operation that the host may ask for and the adapter does not offer.
#[derive(Clone, Copy, Debug, PartialEq, Eq)]
pub enum Operation {
    /// Starting a scan over without a new fetch.
    Rescan,
    /// Writing to the sheet.
    Modify,
}

/// Why a scan was aborted. No failure is retried or repaired: each one goes to
/// the host as it is.
#[derive(Clone, Debug, PartialEq, Eq)]
pub enum ScanError {
    /// A required option is missing; holds the option's name.
    Configuration(String),
    /// The document could not be fetched; holds what the transport reported.
    Transport(String),
    /// The response body does not open with the guard prefix.
    InvalidEnvelope,
    /// What follows the guard prefix is not JSON; holds the parser's message.
    MalformedJson(String),
    /// The document has no array of rows where one is expected.
    MissingRows,
    /// A column asks for a type that the adapter cannot produce; holds the
    /// column's name.
    UnsupportedColumnType(String),
    /// The host asked for an operation that the adapter does not offer.
    UnsupportedOperation(Operation),
}

/// A `ScanError` with its strings as sequences of characters.
pub enum ScanErrorView {
    Configuration(Seq<char>),
    Transport(Seq<char>),
    InvalidEnvelope,
    MalformedJson(Seq<char>),
    MissingRows,
    UnsupportedColumnType(Seq<char>),
    UnsupportedOperation(Operation),
}

impl View for ScanError {
    type V = ScanErrorView;

    open spec fn view(&self) -> ScanErrorView {
        match self {
            ScanError::Configuration(option) => ScanErrorView::Configuration(option@),
            ScanError::Transport(detail) => ScanErrorView::Transport(detail@),
            ScanError::InvalidEnvelope => ScanErrorView::InvalidEnvelope,
            ScanError::MalformedJson(detail) => ScanErrorView::MalformedJson(detail@),
            ScanError::MissingRows => ScanErrorView::MissingRows,
            ScanError::UnsupportedColumnType(column) => ScanErrorView::UnsupportedColumnType(
                column@,
            ),
            ScanError::UnsupportedOperation(operation) => ScanErrorView::UnsupportedOperation(
                *operation,
            ),
        }
    }
}

/// The name by which an operation is reported.
pub open spec fn operation_name(operation: Operation) -> Seq<char> {
    match operation {
        Operation::Rescan => "rescan"@,
        Operation::Modify => "modify"@,
    }
}

/// The text that the host shows for a failure.
pub open spec fn message_text(error: ScanErrorView) -> Seq<char> {
    match error {
        ScanErrorView::Configuration(option) => "required option '"@ + option
            + "' is not specified"@,
        ScanErrorView::Transport(detail) => detail,
        ScanErrorView::InvalidEnvelope => "invalid response"@,
        ScanErrorView::MalformedJson(detail) => detail,
        ScanErrorView::MissingRows => "cannot get rows from response"@,
        ScanErrorView::UnsupportedColumnType(column) => "column "@ + column
            + " data type is not supported"@,
        ScanErrorView::UnsupportedOperation(Operation::Rescan) =>
            "re_scan on foreign table is not supported"@,
        ScanErrorView::UnsupportedOperation(Operation::Modify) =>
            "modify on foreign table is not supported"@,
    }
}

impl Operation {
    /// The name by which the operation is reported.
    pub fn name(&self) -> (r: &'static str)
        ensures
            r@ == operation_name(*self),
    {
        match self {
            Operation::Rescan => "rescan",
            Operation::Modify => "modify",
        }
    }
}

impl ScanError {
    /// The text that the host shows for this failure.
    pub fn message(&self) -> (r: String)
        ensures
            r@ == message_text(self@),
    {
        match self {
            ScanError::Configuration(option) => "required option '".to_owned().concat(
                option.as_str(),
            ).concat("' is not specified"),
            ScanError::Transport(detail) => detail.clone(),
            ScanError::InvalidEnvelope => "invalid response".to_owned(),
            ScanError::MalformedJson(detail) => detail.clone(),
            ScanError::MissingRows => "cannot get rows from response".to_owned(),
            ScanError::UnsupportedColumnType(column) => "column ".to_owned().concat(
                column.as_str(),
            ).concat(" data type is not supported"),
            ScanError::UnsupportedOperation(Operation::Rescan) =>
                "re_scan on foreign table is not supported".to_owned(),
            ScanError::UnsupportedOperation(Operation::Modify) =>
                "modify on foreign table is not supported".to_owned(),
        }
    }
}

} // verus!
