//! The adapter's state and the scan controller.
//!
//! A scan is one pass over the rows of one fetched document: begin, iterate
//! until the rows are exhausted, end. The adapter holds the rows for the scan's
//! duration and a cursor into them. It makes no request itself: it says which
//! request to make, and takes what came back.

use crate::document::{body_rows, extract_rows};
use crate::error::{Operation, ScanError, ScanErrorView};
use crate::mapper::{project, projected_row};
use crate::request::{is_scan_request, request_url, scan_request, url_text, Request};
use crate::schema::{CellView, ColumnDescriptor, ColumnView, TargetCell};
use crate::text::{decimal, decimal_digits};
use vstd::prelude::*;

verus! {

/// The adapter: where the documents are, the rows of the scan in progress, and
/// how many of them the host has had.
#[derive(Debug)]
pub struct SpreadsheetsFdw {
    base_url: String,
    src_rows: Vec<serde_json::Value>,
    src_idx: usize,
}

/// What an adapter holds.
pub struct ScanView {
    /// The address under which the documents are found.
    pub base_url: Seq<char>,
    /// The rows of the scan in progress.
    pub rows: Seq<serde_json::Value>,
    /// The number of rows that the host has had; the next row is at this index.
    pub cursor: nat,
}

/// What the transport hands back: a response body, or its account of a
/// failure.
pub type ResponseView = Result<Seq<char>, Seq<char>>;

/// What a call of `iter_scan` hands to the host: a row, or `None` once the rows
/// are exhausted, or the failure that aborts the scan.
pub type StepOutcome = Result<Option<Seq<Option<CellView>>>, ScanErrorView>;

impl View for SpreadsheetsFdw {
    type V = ScanView;

    closed spec fn view(&self) -> ScanView {
        ScanView { base_url: self.base_url@, rows: self.src_rows@, cursor: self.src_idx as nat }
    }
}

/// The address that is used where the host configures none.
pub open spec fn default_base_url() -> Seq<char> {
    "https://docs.google.com/spreadsheets/d"@
}

/// The base address that a configuration gives.
pub open spec fn configured_base_url(base_url: Option<Seq<char>>) -> Seq<char> {
    match base_url {
        Some(url) => url,
        None => default_base_url(),
    }
}

/// An adapter that holds no rows.
pub open spec fn idle(base_url: Seq<char>) -> ScanView {
    ScanView { base_url, rows: Seq::empty(), cursor: 0 }
}

/// Whether the rows of a scan are exhausted.
pub open spec fn exhausted(scan: ScanView) -> bool {
    scan.cursor == scan.rows.len()
}

/// The rows that a response holds, or why the scan cannot begin.
pub open spec fn response_rows(response: ResponseView) -> Result<
    Seq<serde_json::Value>,
    ScanErrorView,
> {
    match response {
        Err(detail) => Err(ScanErrorView::Transport(detail)),
        Ok(body) => body_rows(body),
    }
}

/// The adapter after `begin_scan`. A response that holds rows replaces whatever
/// the adapter held and puts the cursor at the first row. Any other response
/// leaves the adapter as it was.
pub open spec fn began(before: ScanView, response: ResponseView) -> ScanView {
    match response_rows(response) {
        Ok(rows) => ScanView { base_url: before.base_url, rows, cursor: 0 },
        Err(_) => before,
    }
}

/// What `begin_scan` returns: the number of rows fetched, or the failure.
pub open spec fn begin_outcome(response: ResponseView) -> Result<nat, ScanErrorView> {
    match response_rows(response) {
        Ok(rows) => Ok(rows.len()),
        Err(e) => Err(e),
    }
}

/// What `iter_scan` hands to the host.
pub open spec fn step_outcome(before: ScanView, columns: Seq<ColumnView>) -> StepOutcome {
    if before.cursor >= before.rows.len() {
        Ok(None)
    } else {
        match projected_row(before.rows[before.cursor as int], columns) {
            Ok(cells) => Ok(Some(cells)),
            Err(e) => Err(e),
        }
    }
}

/// The adapter after `iter_scan`: the cursor moves on by one if a row was
/// handed out, and stays otherwise.
pub open spec fn stepped(before: ScanView, columns: Seq<ColumnView>) -> ScanView {
    match step_outcome(before, columns) {
        Ok(Some(_)) => ScanView { cursor: before.cursor + 1, ..before },
        _ => before,
    }
}

/// The notice that tells the user how many rows were fetched.
pub open spec fn fetch_notice_text(rows: nat) -> Seq<char> {
    "We got response array length: "@ + decimal_digits(rows)
}

/// The view of what `iter_scan` returns.
pub open spec fn step_view(r: Result<Option<Vec<Option<TargetCell>>>, ScanError>) -> StepOutcome {
    match r {
        Ok(Some(cells)) => Ok(Some(cells.deep_view())),
        Ok(None) => Ok(None),
        Err(e) => Err(e@),
    }
}

/// The view of a response.
pub open spec fn response_view(response: Result<String, String>) -> ResponseView {
    match response {
        Ok(body) => Ok(body@),
        Err(detail) => Err(detail@),
    }
}

impl SpreadsheetsFdw {
    #[verifier::type_invariant]
    spec fn cursor_in_buffer(self) -> bool {
        self.src_idx <= self.src_rows.len()
    }

    /// The version of the host that the adapter asks for.
    pub fn host_version_requirement() -> (r: String)
        ensures
            r@ == "^0.1.0"@,
    {
        "^0.1.0".to_owned()
    }

    /// An adapter that holds no rows and is not configured yet.
    pub fn new() -> (fdw: Self)
        ensures
            fdw@ == idle(Seq::empty()),
    {
        SpreadsheetsFdw { base_url: String::new(), src_rows: Vec::new(), src_idx: 0 }
    }

    /// Sets the address under which the documents are found; without one, the
    /// default address.
    pub fn configure(&mut self, base_url: Option<String>)
        ensures
            final(self)@ == (ScanView {
                base_url: configured_base_url(
                    match base_url {
                        Some(url) => Some(url@),
                        None => None,
                    },
                ),
                ..old(self)@
            }),
    {
        proof {
            use_type_invariant(&*self);
        }
        let url = match base_url {
            Some(url) => url,
            None => "https://docs.google.com/spreadsheets/d".to_owned(),
        };
        self.base_url = url;
    }

    /// A configured adapter that holds no rows.
    pub fn init(base_url: Option<String>) -> (fdw: Self)
        ensures
            fdw@ == idle(
                configured_base_url(
                    match base_url {
                        Some(url) => Some(url@),
                        None => None,
                    },
                ),
            ),
    {
        let mut fdw = Self::new();
        fdw.configure(base_url);
        fdw
    }

    /// The address under which the documents are found.
    pub fn base_url(&self) -> (r: &str)
        ensures
            r@ == self@.base_url,
    {
        self.base_url.as_str()
    }

    /// The number of rows of the scan in progress.
    pub fn row_count(&self) -> (r: usize)
        ensures
            r == self@.rows.len(),
    {
        self.src_rows.len()
    }

    /// The number of rows that the host has had. It never exceeds the number
    /// of rows.
    pub fn cursor(&self) -> (r: usize)
        ensures
            r == self@.cursor,
            r <= self@.rows.len(),
    {
        proof {
            use_type_invariant(self);
        }
        self.src_idx
    }

    /// The row that the next call of `iter_scan` maps; `None` once the rows are
    /// exhausted.
    pub fn current_row(&self) -> (r: Option<&serde_json::Value>)
        ensures
            match r {
                Some(row) => !exhausted(self@) && *row == self@.rows[self@.cursor as int],
                None => exhausted(self@),
            },
    {
        proof {
            use_type_invariant(self);
        }
        if self.src_idx < self.src_rows.len() {
            Some(&self.src_rows[self.src_idx])
        } else {
            None
        }
    }

    /// The request that begins a scan of a document, or of one of its sheets.
    /// Fails with `Configuration` if no document is named.
    pub fn begin_request(&self, spread_sheet_id: Option<&str>, sheet_id: Option<&str>) -> (r:
        Result<Request, ScanError>)
        ensures
            match spread_sheet_id {
                Some(document) => r is Ok && is_scan_request(
                    r->Ok_0,
                    url_text(
                        self@.base_url,
                        document@,
                        match sheet_id {
                            Some(gid) => Some(gid@),
                            None => None,
                        },
                    ),
                ),
                None => r is Err && r->Err_0@ == ScanErrorView::Configuration(
                    "spread_sheet_id"@,
                ),
            },
    {
        match spread_sheet_id {
            Some(document) => Ok(
                scan_request(request_url(self.base_url.as_str(), document, sheet_id)),
            ),
            None => Err(ScanError::Configuration("spread_sheet_id".to_owned())),
        }
    }

    /// Begins a scan with what the transport handed back, and returns the
    /// number of rows fetched.
    pub fn begin_scan(&mut self, response: Result<String, String>) -> (r: Result<usize, ScanError>)
        ensures
            final(self)@ == began(old(self)@, response_view(response)),
            match r {
                Ok(n) => begin_outcome(response_view(response)) == Ok::<nat, ScanErrorView>(
                    n as nat,
                ),
                Err(e) => begin_outcome(response_view(response)) == Err::<nat, ScanErrorView>(e@),
            },
    {
        proof {
            use_type_invariant(&*self);
        }
        match response {
            Err(detail) => Err(ScanError::Transport(detail)),
            Ok(body) => match extract_rows(body.as_str()) {
                Err(e) => Err(e),
                Ok(rows) => {
                    let n: usize = rows.len();
                    self.src_idx = 0;
                    self.src_rows = rows;
                    Ok(n)
                },
            },
        }
    }

    /// Hands the next row to the host, mapped to the columns, and moves the
    /// cursor past it; `None` once the rows are exhausted. A row that cannot be
    /// mapped aborts the scan and the cursor stays.
    pub fn iter_scan(&mut self, columns: &Vec<ColumnDescriptor>) -> (r: Result<
        Option<Vec<Option<TargetCell>>>,
        ScanError,
    >)
        ensures
            step_view(r) == step_outcome(old(self)@, columns.deep_view()),
            final(self)@ == stepped(old(self)@, columns.deep_view()),
    {
        proof {
            use_type_invariant(&*self);
        }
        let mapped = match self.current_row() {
            None => {
                return Ok(None);
            },
            Some(row) => project(row, columns),
        };
        match mapped {
            Err(e) => Err(e),
            Ok(cells) => {
                self.src_idx += 1;
                Ok(Some(cells))
            },
        }
    }

    /// Refuses to start the scan over: a scan is one forward pass. The adapter
    /// is not touched.
    pub fn re_scan(&self) -> (r: Result<(), ScanError>)
        ensures
            r is Err,
            r->Err_0@ == ScanErrorView::UnsupportedOperation(Operation::Rescan),
    {
        Err(ScanError::UnsupportedOperation(Operation::Rescan))
    }

    /// Drops the rows and puts the cursor back to the start.
    pub fn reset_buffer(&mut self)
        ensures
            final(self)@ == idle(old(self)@.base_url),
    {
        self.src_idx = 0;
        self.src_rows = Vec::new();
    }

    /// Ends a scan, begun or not, finished or not.
    pub fn end_scan(&mut self)
        ensures
            final(self)@ == idle(old(self)@.base_url),
    {
        self.reset_buffer();
    }

    /// Refuses to begin a modification: the adapter only reads.
    pub fn begin_modify(&self) -> (r: Result<(), ScanError>)
        ensures
            r is Err,
            r->Err_0@ == ScanErrorView::UnsupportedOperation(Operation::Modify),
    {
        Err(ScanError::UnsupportedOperation(Operation::Modify))
    }

    /// Accepts a row to insert, and does nothing with it.
    pub fn insert(&self, _row: &Vec<Option<TargetCell>>) -> (r: Result<(), ScanError>)
        ensures
            r is Ok,
    {
        Ok(())
    }

    /// Accepts a row to put in place of another, and does nothing with it.
    pub fn update(&self, _rowid: Option<&TargetCell>, _row: &Vec<Option<TargetCell>>) -> (r: Result<
        (),
        ScanError,
    >)
        ensures
            r is Ok,
    {
        Ok(())
    }

    /// Accepts the identifier of a row to delete, and does nothing with it.
    pub fn delete(&self, _rowid: Option<&TargetCell>) -> (r: Result<(), ScanError>)
        ensures
            r is Ok,
    {
        Ok(())
    }

    /// Ends a modification, of which there was none.
    pub fn end_modify(&self) -> (r: Result<(), ScanError>)
        ensures
            r is Ok,
    {
        Ok(())
    }
}

/// Builds the notice that tells the user how many rows were fetched.
pub fn fetch_notice(rows: usize) -> (notice: String)
    ensures
        notice@ == fetch_notice_text(rows as nat),
{
    "We got response array length: ".to_owned().concat(decimal(rows as u64).as_str())
}

impl Default for SpreadsheetsFdw {
    fn default() -> (fdw: Self)
        ensures
            fdw@ == idle(Seq::empty()),
    {
        Self::new()
    }
}

/// The adapter after a number of calls of `iter_scan` with one schema.
pub open spec fn after_steps(start: ScanView, columns: Seq<ColumnView>, calls: nat) -> ScanView
    decreases calls,
{
    if calls == 0 {
        start
    } else {
        stepped(after_steps(start, columns, (calls - 1) as nat), columns)
    }
}

/// The cursor never leaves the buffer: not when a scan begins, not when it
/// moves on, not when it ends.
pub proof fn lemma_cursor_stays_in_buffer(
    before: ScanView,
    response: ResponseView,
    columns: Seq<ColumnView>,
)
    requires
        before.cursor <= before.rows.len(),
    ensures
        began(before, response).cursor <= began(before, response).rows.len(),
        stepped(before, columns).cursor <= stepped(before, columns).rows.len(),
        idle(before.base_url).cursor <= idle(before.base_url).rows.len(),
        exhausted(before) <==> step_outcome(before, columns) == Ok::<
            Option<Seq<Option<CellView>>>,
            ScanErrorView,
        >(None),
{
}

/// A scan hands out every row once, in order, and then nothing. Where every
/// remaining row can be mapped, the call of `iter_scan` that follows `calls`
/// earlier ones hands out the row that many places after the starting cursor,
/// as long as there is one, and `None` from then on. So the calls that hand
/// out a row are as many as the rows that were left, no row is skipped and
/// none comes twice.
pub proof fn lemma_scan_hands_out_each_row_once(
    start: ScanView,
    columns: Seq<ColumnView>,
    calls: nat,
)
    requires
        start.cursor <= start.rows.len(),
        forall|i: int|
            start.cursor <= i < start.rows.len() ==> projected_row(
                #[trigger] start.rows[i],
                columns,
            ) is Ok,
    ensures
        after_steps(start, columns, calls).rows == start.rows,
        after_steps(start, columns, calls).base_url == start.base_url,
        start.cursor + calls < start.rows.len() ==> {
            &&& after_steps(start, columns, calls).cursor == start.cursor + calls
            &&& step_outcome(after_steps(start, columns, calls), columns) == Ok::<
                Option<Seq<Option<CellView>>>,
                ScanErrorView,
            >(Some(projected_row(start.rows[(start.cursor + calls) as int], columns)->Ok_0))
        },
        start.cursor + calls >= start.rows.len() ==> {
            &&& after_steps(start, columns, calls).cursor == start.rows.len()
            &&& step_outcome(after_steps(start, columns, calls), columns) == Ok::<
                Option<Seq<Option<CellView>>>,
                ScanErrorView,
            >(None)
        },
    decreases calls,
{
    if calls > 0 {
        lemma_scan_hands_out_each_row_once(start, columns, (calls - 1) as nat);
    }
}

/// Nothing of an earlier scan is left in a later one. A scan that begins after
/// `end_scan` holds exactly the rows of its own response, with the cursor at
/// the first of them, whatever the adapter held before; and so does a scan
/// that begins without `end_scan` in between.
pub proof fn lemma_begin_leaves_no_residue(
    earlier: ScanView,
    other: ScanView,
    response: ResponseView,
)
    requires
        earlier.base_url == other.base_url,
    ensures
        began(idle(earlier.base_url), response) == began(idle(other.base_url), response),
        response_rows(response) is Ok ==> {
            &&& began(idle(earlier.base_url), response) == began(earlier, response)
            &&& began(earlier, response).cursor == 0
            &&& began(earlier, response).rows == response_rows(response)->Ok_0
        },
{
}

} // verus!
