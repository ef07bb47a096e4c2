use vstd::prelude::*;

verus! {

/// A cell of the coordinate plane, by row and column.
///
/// Rows grow downwards and columns to the right. A piece that has only partly
/// entered the field has cells with a negative row.
#[derive(Clone, Copy, Debug, PartialEq, Eq, Structural)]
pub struct Position {
    pub row: i32,
    pub column: i32,
}

/// A cell of the unbounded plane: what a [`Position`] stands for.
pub struct Cell {
    pub row: int,
    pub column: int,
}

impl View for Position {
    type V = Cell;

    open spec fn view(&self) -> Cell {
        Cell { row: self.row as int, column: self.column as int }
    }
}

/// The cells that a list of positions stands for, in the same order.
pub open spec fn cells_of(positions: Seq<Position>) -> Seq<Cell> {
    Seq::new(positions.len(), |i: int| positions[i]@)
}

} // verus!
