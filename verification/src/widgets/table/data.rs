//! The cells of a table.

use vstd::prelude::*;
use crate::widgets::Widget;

verus! {

/// The cells of a table, by row and column.
pub trait TableData {
    type Cell: Widget;

    /// Number of rows.
    spec fn rows_spec(&self) -> usize;

    /// The cell at row `row`, column `col`, if there is one.
    spec fn cell_spec(&self, row: usize, col: usize) -> Option<Self::Cell>;

    fn rows_len(&self) -> (r: usize)
        ensures
            r == self.rows_spec(),
    ;

    fn cell(&self, row: usize, col: usize) -> (r: Option<&Self::Cell>)
        ensures
            r is Some <==> self.cell_spec(row, col) is Some,
            r matches Some(cell) ==> Some(*cell) == self.cell_spec(row, col),
    ;
}

impl<Item: Widget> TableData for Vec<Vec<Item>> {
    type Cell = Item;

    open spec fn rows_spec(&self) -> usize {
        self@.len() as usize
    }

    open spec fn cell_spec(&self, row: usize, col: usize) -> Option<Item> {
        if row < self@.len() && col < self@[row as int]@.len() {
            Some(self@[row as int]@[col as int])
        } else {
            None
        }
    }

    fn rows_len(&self) -> (r: usize) {
        self.len()
    }

    fn cell(&self, row: usize, col: usize) -> (r: Option<&Item>) {
        if row < self.len() {
            let cells = &self[row];
            if col < cells.len() {
                Some(&cells[col])
            } else {
                None
            }
        } else {
            None
        }
    }
}

/// No cells at all: what a table has before it is given any.
impl TableData for () {
    type Cell = ();

    open spec fn rows_spec(&self) -> usize {
        0
    }

    open spec fn cell_spec(&self, row: usize, col: usize) -> Option<()> {
        None
    }

    fn rows_len(&self) -> (r: usize) {
        0
    }

    fn cell(&self, row: usize, col: usize) -> (r: Option<&()>) {
        None
    }
}

} // verus!
