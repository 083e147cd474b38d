//! The host's side of a scan: the columns it declares and the cells it gets.

use vstd::prelude::*;

verus! {

/// The type that a column declares for its cells.
#[derive(Clone, Copy, Debug, PartialEq, Eq)]
pub enum TargetType {
    /// A 64-bit signed integer.
    Integer,
    /// A string.
    Text,
    /// Any type that the adapter cannot produce.
    Other,
}

/// A cell of a target row that holds a value. An absent cell is the `None` of
/// an `Option<TargetCell>`.
#[derive(Clone, Debug, PartialEq, Eq)]
pub enum TargetCell {
    Integer(i64),
    Text(String),
}

/// A `TargetCell` with its string as a sequence of characters.
pub enum CellView {
    Integer(i64),
    Text(Seq<char>),
}

impl DeepView for TargetCell {
    type V = CellView;

    open spec fn deep_view(&self) -> CellView {
        match self {
            TargetCell::Integer(n) => CellView::Integer(*n),
            TargetCell::Text(s) => CellView::Text(s@),
        }
    }
}

/// One column of the host's schema. Its position counts from one.
#[derive(Debug, PartialEq, Eq)]
pub struct ColumnDescriptor {
    ordinal: u32,
    name: String,
    target: TargetType,
}

/// What a `ColumnDescriptor` says.
pub struct ColumnView {
    pub ordinal: nat,
    pub name: Seq<char>,
    pub target: TargetType,
}

impl View for ColumnDescriptor {
    type V = ColumnView;

    closed spec fn view(&self) -> ColumnView {
        ColumnView { ordinal: self.ordinal as nat, name: self.name@, target: self.target }
    }
}

impl DeepView for ColumnDescriptor {
    type V = ColumnView;

    open spec fn deep_view(&self) -> ColumnView {
        self@
    }
}

impl ColumnDescriptor {
    #[verifier::type_invariant]
    spec fn positioned(self) -> bool {
        self.ordinal >= 1
    }

    /// Declares a column at a position, which counts from one.
    pub fn new(ordinal: u32, name: String, target: TargetType) -> (column: Self)
        requires
            ordinal >= 1,
        ensures
            column@ == (ColumnView { ordinal: ordinal as nat, name: name@, target }),
    {
        ColumnDescriptor { ordinal, name, target }
    }

    /// The column's position, counted from one.
    pub fn ordinal(&self) -> (r: u32)
        ensures
            r == self@.ordinal,
            r >= 1,
    {
        proof {
            use_type_invariant(self);
        }
        self.ordinal
    }

    /// The column's name.
    pub fn name(&self) -> (r: &str)
        ensures
            r@ == self@.name,
    {
        self.name.as_str()
    }

    /// The type that the column declares.
    pub fn target(&self) -> (r: TargetType)
        ensures
            r == self@.target,
    {
        self.target
    }
}

} // verus!
