//! The table of cable records: rows of typed cells.

use vstd::prelude::*;

verus! {

/// One cell of the table.
#[derive(Debug, Clone, PartialEq, Eq)]
pub enum Cell {
    /// A cell that holds text.
    Text(String),
    /// A cell that holds a whole number.
    Int(i64),
    /// A cell that holds a real number, kept as the decimal text that writes it.
    Float(String),
    /// An empty cell, or a cell of any other kind.
    Other,
}

/// What a [`Cell`] holds, as mathematical values.
pub enum CellView {
    Text(Seq<char>),
    Int(int),
    Float(Seq<char>),
    Other,
}

impl View for Cell {
    type V = CellView;

    open spec fn view(&self) -> CellView {
        match self {
            Cell::Text(text) => CellView::Text(text@),
            Cell::Int(number) => CellView::Int(*number as int),
            Cell::Float(text) => CellView::Float(text@),
            Cell::Other => CellView::Other,
        }
    }
}

impl DeepView for Cell {
    type V = CellView;

    open spec fn deep_view(&self) -> CellView {
        self@
    }
}

/// A row of the table as mathematical values.
pub type RowView = Seq<CellView>;

/// The table: its rows from top to bottom, each with its cells from left to right.
/// Rows may differ in length; a cell beyond the end of a row counts as empty.
#[derive(Debug, Clone, PartialEq, Eq)]
pub struct Table {
    pub rows: Vec<Vec<Cell>>,
}

impl View for Table {
    type V = Seq<RowView>;

    open spec fn view(&self) -> Seq<RowView> {
        self.rows.deep_view()
    }
}

impl DeepView for Table {
    type V = Seq<RowView>;

    open spec fn deep_view(&self) -> Seq<RowView> {
        self@
    }
}

impl Table {
    /// A table of the given rows.
    pub fn new(rows: Vec<Vec<Cell>>) -> (table: Table)
        ensures
            table@ == rows.deep_view(),
    {
        Table { rows }
    }
}

/// The cell at `column`, or the empty cell where the row ends before it.
pub open spec fn cell_at(row: RowView, column: int) -> CellView {
    if 0 <= column < row.len() {
        row[column]
    } else {
        CellView::Other
    }
}

/// The text of a text cell; `None` for every other kind of cell.
pub open spec fn text_of(cell: CellView) -> Option<Seq<char>> {
    match cell {
        CellView::Text(text) => Some(text),
        _ => None,
    }
}

/// The text of the cell at `column`, where the row has a text cell there.
pub fn text_at(row: &Vec<Cell>, column: usize) -> (text: Option<&String>)
    ensures
        text.deep_view() == text_of(cell_at(row.deep_view(), column as int)),
{
    if column < row.len() {
        match &row[column] {
            Cell::Text(text) => Some(text),
            _ => None,
        }
    } else {
        None
    }
}

} // verus!
