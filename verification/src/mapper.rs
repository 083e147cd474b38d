//! The row mapper: from one source row to one target row.
//!
//! A source row is a JSON object whose member `c` is the array of the row's
//! cells; a cell is `null` or an object whose member `v` is the cell's scalar.
//! The column at position `n` reads the cell at index `n - 1`, by the JSON
//! Pointer `/c/<n - 1>/v`. Where that pointer finds nothing, the target cell is
//! absent. Where it finds a node, the node is read as a scalar and coerced to
//! the column's type; a scalar of the wrong shape gives an absent cell, not an
//! error. Only a column of a type that the adapter cannot produce fails, and
//! then the whole row fails with it.

use crate::error::{ScanError, ScanErrorView};
use crate::json::{json_number_bits, json_pointer, json_text, lookup, number_bits, text};
use crate::number::{truncate_toward_zero, truncated};
use crate::schema::{CellView, ColumnDescriptor, ColumnView, TargetCell, TargetType};
use crate::text::{decimal, decimal_digits};
use vstd::prelude::*;

verus! {

/// The scalar that a source cell holds, as far as the mapper tells scalars
/// apart.
#[derive(Clone, Debug, PartialEq, Eq)]
pub enum SourceScalar {
    /// A number, by its binary64 encoding.
    Number(u64),
    /// A string.
    Text(String),
    /// Anything else: `null`, a boolean, or a nested array or object.
    Neither,
}

/// A `SourceScalar` with its string as a sequence of characters.
pub enum ScalarView {
    Number(u64),
    Text(Seq<char>),
    Neither,
}

impl View for SourceScalar {
    type V = ScalarView;

    open spec fn view(&self) -> ScalarView {
        match self {
            SourceScalar::Number(bits) => ScalarView::Number(*bits),
            SourceScalar::Text(s) => ScalarView::Text(s@),
            SourceScalar::Neither => ScalarView::Neither,
        }
    }
}

/// A target cell, present or absent, or the failure of its column.
pub type CellOutcome = Result<Option<CellView>, ScanErrorView>;

/// A target row, or the failure of the first column that failed.
pub type RowOutcome = Result<Seq<Option<CellView>>, ScanErrorView>;

/// The view of what `coerce` and `project_cell` return.
pub open spec fn cell_outcome(r: Result<Option<TargetCell>, ScanError>) -> CellOutcome {
    match r {
        Ok(cell) => Ok(cell.deep_view()),
        Err(e) => Err(e@),
    }
}

/// The view of what `project` returns.
pub open spec fn row_outcome(r: Result<Vec<Option<TargetCell>>, ScanError>) -> RowOutcome {
    match r {
        Ok(cells) => Ok(cells.deep_view()),
        Err(e) => Err(e@),
    }
}

/// The JSON Pointer to the scalar of the cell that the column at a position
/// reads: the cell's index is the position less one.
pub open spec fn cell_path(ordinal: nat) -> Seq<char> {
    "/c/"@ + decimal_digits((ordinal - 1) as nat) + "/v"@
}

/// The scalar that a node holds: a number if it reads as one, else a string if
/// it reads as one, else neither.
pub open spec fn scalar_of(node: serde_json::Value) -> ScalarView {
    match json_number_bits(node) {
        Some(bits) => ScalarView::Number(bits),
        None => match json_text(node) {
            Some(s) => ScalarView::Text(s),
            None => ScalarView::Neither,
        },
    }
}

/// What a scalar becomes in a column.
///
/// In an integral column a number is truncated toward zero and anything else
/// is absent. In a textual column a string is taken as it is and anything else
/// is absent. A column of any other type fails, whatever the scalar.
pub open spec fn coerced(scalar: ScalarView, column: ColumnView) -> CellOutcome {
    match column.target {
        TargetType::Integer => Ok(
            match scalar {
                ScalarView::Number(bits) => Some(CellView::Integer(truncated(bits) as i64)),
                _ => None,
            },
        ),
        TargetType::Text => Ok(
            match scalar {
                ScalarView::Text(s) => Some(CellView::Text(s)),
                _ => None,
            },
        ),
        TargetType::Other => Err(ScanErrorView::UnsupportedColumnType(column.name)),
    }
}

/// What a column reads from a source row.
pub open spec fn projected_cell(row: serde_json::Value, column: ColumnView) -> CellOutcome {
    match json_pointer(row, cell_path(column.ordinal)) {
        None => Ok(None),
        Some(node) => coerced(scalar_of(node), column),
    }
}

/// What a schema reads from a source row: one cell per column, in the order of
/// the columns, unless a column fails; then the failure of the first such
/// column.
pub open spec fn projected_row(row: serde_json::Value, columns: Seq<ColumnView>) -> RowOutcome
    decreases columns.len(),
{
    if columns.len() == 0 {
        Ok(Seq::empty())
    } else {
        match projected_row(row, columns.drop_last()) {
            Err(e) => Err(e),
            Ok(cells) => match projected_cell(row, columns.last()) {
                Err(e) => Err(e),
                Ok(cell) => Ok(cells.push(cell)),
            },
        }
    }
}

/// Builds the JSON Pointer to the scalar of the cell that the column at a
/// position reads.
pub fn cell_pointer(ordinal: u32) -> (path: String)
    requires
        ordinal >= 1,
    ensures
        path@ == cell_path(ordinal as nat),
{
    let index: u64 = (ordinal - 1) as u64;
    "/c/".to_owned().concat(decimal(index).as_str()).concat("/v")
}

/// Reads the scalar that a node holds.
pub fn read_scalar(node: &serde_json::Value) -> (scalar: SourceScalar)
    ensures
        scalar@ == scalar_of(*node),
{
    match number_bits(node) {
        Some(bits) => SourceScalar::Number(bits),
        None => match text(node) {
            Some(s) => SourceScalar::Text(s),
            None => SourceScalar::Neither,
        },
    }
}

/// Coerces a scalar to a column's type.
pub fn coerce(scalar: SourceScalar, column: &ColumnDescriptor) -> (r: Result<
    Option<TargetCell>,
    ScanError,
>)
    ensures
        cell_outcome(r) == coerced(scalar@, column@),
{
    match column.target() {
        TargetType::Integer => Ok(
            match scalar {
                SourceScalar::Number(bits) => Some(TargetCell::Integer(truncate_toward_zero(bits))),
                _ => None,
            },
        ),
        TargetType::Text => Ok(
            match scalar {
                SourceScalar::Text(s) => Some(TargetCell::Text(s)),
                _ => None,
            },
        ),
        TargetType::Other => Err(ScanError::UnsupportedColumnType(column.name().to_owned())),
    }
}

/// Reads one column's cell from a source row.
pub fn project_cell(row: &serde_json::Value, column: &ColumnDescriptor) -> (r: Result<
    Option<TargetCell>,
    ScanError,
>)
    ensures
        cell_outcome(r) == projected_cell(*row, column@),
{
    let path = cell_pointer(column.ordinal());
    match lookup(row, path.as_str()) {
        None => Ok(None),
        Some(node) => coerce(read_scalar(node), column),
    }
}

/// Maps a source row to a target row: one cell per column, in the order of the
/// columns.
pub fn project(row: &serde_json::Value, columns: &Vec<ColumnDescriptor>) -> (r: Result<
    Vec<Option<TargetCell>>,
    ScanError,
>)
    ensures
        row_outcome(r) == projected_row(*row, columns.deep_view()),
{
    let mut cells: Vec<Option<TargetCell>> = Vec::new();
    let mut i: usize = 0;
    assert(columns.deep_view().take(0) =~= Seq::empty());
    assert(cells.deep_view() =~= Seq::empty());
    while i < columns.len()
        invariant
            i <= columns.len(),
            projected_row(*row, columns.deep_view().take(i as int)) == Ok::<
                Seq<Option<CellView>>,
                ScanErrorView,
            >(cells.deep_view()),
        decreases columns.len() - i,
    {
        let ghost seen = columns.deep_view().take(i as int);
        let ghost next = columns.deep_view().take(i + 1);
        let ghost before = cells.deep_view();
        assert(next.drop_last() =~= seen);
        assert(next.last() == columns[i as int]@);
        match project_cell(row, &columns[i]) {
            Err(e) => {
                proof {
                    lemma_failure_stays(*row, next, columns.deep_view());
                }
                return Err(e);
            },
            Ok(cell) => {
                cells.push(cell);
                assert(cells.deep_view() =~= before.push(cell.deep_view()));
            },
        }
        i += 1;
    }
    assert(columns.deep_view().take(i as int) =~= columns.deep_view());
    Ok(cells)
}

/// Once a column has failed, the columns after it do not matter: the row fails
/// with the failure of that column.
pub proof fn lemma_failure_stays(
    row: serde_json::Value,
    head: Seq<ColumnView>,
    columns: Seq<ColumnView>,
)
    requires
        head.len() <= columns.len(),
        head =~= columns.take(head.len() as int),
        projected_row(row, head) is Err,
    ensures
        projected_row(row, columns) == projected_row(row, head),
    decreases columns.len(),
{
    if head.len() < columns.len() {
        assert(columns.drop_last().take(head.len() as int) =~= head);
        lemma_failure_stays(row, head, columns.drop_last());
    } else {
        assert(head =~= columns);
    }
}

/// Whether a column stops a row: its type is one that the adapter cannot
/// produce, and the row has a cell for it.
pub open spec fn stops_row(row: serde_json::Value, column: ColumnView) -> bool {
    column.target is Other && json_pointer(row, cell_path(column.ordinal)) is Some
}

/// A cell that is absent in the source row is absent in the target row, for
/// every type that the column may declare.
pub proof fn lemma_absent_stays_absent(row: serde_json::Value, column: ColumnView)
    requires
        json_pointer(row, cell_path(column.ordinal)) is None,
    ensures
        projected_cell(row, column) == Ok::<Option<CellView>, ScanErrorView>(None),
{
}

/// A column fails exactly if it stops the row, and then with its own name,
/// whatever the cell holds.
pub proof fn lemma_cell_fails_iff_stopped(row: serde_json::Value, column: ColumnView)
    ensures
        projected_cell(row, column) is Err <==> stops_row(row, column),
        stops_row(row, column) ==> projected_cell(row, column) == Err::<
            Option<CellView>,
            ScanErrorView,
        >(ScanErrorView::UnsupportedColumnType(column.name)),
{
}

/// A row without a column that stops it maps to one cell per column, each the
/// cell that its column reads, in the order of the columns.
pub proof fn lemma_row_maps_cell_by_cell(row: serde_json::Value, columns: Seq<ColumnView>)
    requires
        forall|i: int| 0 <= i < columns.len() ==> !stops_row(row, #[trigger] columns[i]),
    ensures
        projected_row(row, columns) is Ok,
        projected_row(row, columns)->Ok_0.len() == columns.len(),
        forall|i: int|
            0 <= i < columns.len() ==> projected_cell(row, #[trigger] columns[i]) == Ok::<
                Option<CellView>,
                ScanErrorView,
            >(projected_row(row, columns)->Ok_0[i]),
    decreases columns.len(),
{
    if columns.len() > 0 {
        let head = columns.drop_last();
        assert forall|i: int| 0 <= i < head.len() implies !stops_row(row, #[trigger] head[i]) by {
            assert(head[i] == columns[i]);
        }
        lemma_row_maps_cell_by_cell(row, head);
        lemma_cell_fails_iff_stopped(row, columns.last());
        assert(!stops_row(row, columns[columns.len() - 1]));
        let cells = projected_row(row, columns)->Ok_0;
        assert forall|i: int| 0 <= i < columns.len() implies projected_cell(
            row,
            #[trigger] columns[i],
        ) == Ok::<Option<CellView>, ScanErrorView>(cells[i]) by {
            if i < head.len() {
                assert(head[i] == columns[i]);
            }
        }
    }
}

/// A column that stops the row fails the whole row, whatever the other columns
/// would have read: the row fails with the name of the first such column.
pub proof fn lemma_unsupported_column_fails_row(
    row: serde_json::Value,
    columns: Seq<ColumnView>,
    first: int,
)
    requires
        0 <= first < columns.len(),
        stops_row(row, columns[first]),
        forall|j: int| 0 <= j < first ==> !stops_row(row, #[trigger] columns[j]),
    ensures
        projected_row(row, columns) == Err::<Seq<Option<CellView>>, ScanErrorView>(
            ScanErrorView::UnsupportedColumnType(columns[first].name),
        ),
{
    let upto = columns.take(first + 1);
    let head = upto.drop_last();
    assert(head =~= columns.take(first));
    assert forall|j: int| 0 <= j < head.len() implies !stops_row(row, #[trigger] head[j]) by {
        assert(head[j] == columns[j]);
    }
    lemma_row_maps_cell_by_cell(row, head);
    assert(upto.last() == columns[first]);
    lemma_cell_fails_iff_stopped(row, upto.last());
    lemma_failure_stays(row, upto, columns);
}

/// A row fails only if one of its columns stops it.
pub proof fn lemma_row_fails_only_if_stopped(row: serde_json::Value, columns: Seq<ColumnView>)
    requires
        projected_row(row, columns) is Err,
    ensures
        exists|i: int| 0 <= i < columns.len() && stops_row(row, #[trigger] columns[i]),
{
    if forall|i: int| 0 <= i < columns.len() ==> !stops_row(row, #[trigger] columns[i]) {
        lemma_row_maps_cell_by_cell(row, columns);
    }
}

} // verus!
