use vstd::arithmetic::div_mod::lemma_fundamental_div_mod_converse;
use vstd::prelude::*;
use crate::tetris::position::{cells_of, Cell, Position};
use crate::utils::colors::{get_cell_colors, palette};
use crate::utils::tile::{cell_tile, tile_of, Tile, CELL_SIZE, FIELD_CORNER};

verus! {

/// Rows of the standard field.
pub const FIELD_ROWS: usize = 20;

/// Columns of the standard field.
pub const FIELD_COLUMNS: usize = 10;

/// Whether every cell of the row is taken. A row without cells is full.
pub open spec fn row_full(row: Seq<i32>) -> bool {
    forall|c: int| 0 <= c < row.len() ==> row[c] != 0
}

/// The row of `columns` free cells.
pub open spec fn empty_row(columns: nat) -> Seq<i32> {
    Seq::new(columns, |c: int| 0i32)
}

/// The field of `rows` by `columns` free cells.
pub open spec fn empty_field(rows: nat, columns: nat) -> Seq<Seq<i32>> {
    Seq::new(rows, |r: int| empty_row(columns))
}

/// The test that tells the rows that stay from those that are cleared.
pub open spec fn stays() -> spec_fn(Seq<i32>) -> bool {
    |row: Seq<i32>| !row_full(row)
}

/// The test that picks the rows that are cleared.
pub open spec fn leaves() -> spec_fn(Seq<i32>) -> bool {
    |row: Seq<i32>| row_full(row)
}

/// The rows of the field that are not full, in their order from the top.
pub open spec fn kept_rows(field: Seq<Seq<i32>>) -> Seq<Seq<i32>> {
    field.filter(stays())
}

/// How many rows of the field are full.
pub open spec fn full_row_count(field: Seq<Seq<i32>>) -> nat {
    field.filter(leaves()).len()
}

/// Whether no row of the field is full.
pub open spec fn no_full_row(field: Seq<Seq<i32>>) -> bool {
    forall|r: int| 0 <= r < field.len() ==> !row_full(#[trigger] field[r])
}

/// The width of the field: the length of its first row, and 0 without rows.
pub open spec fn width(field: Seq<Seq<i32>>) -> nat {
    if field.len() > 0 {
        field[0].len()
    } else {
        0
    }
}

/// The field after its full rows are taken out: the rows that stay sink to the
/// bottom in their order, and as many free rows as were taken out come in at
/// the top.
pub open spec fn cleared(field: Seq<Seq<i32>>) -> Seq<Seq<i32>> {
    empty_field(full_row_count(field), width(field)) + kept_rows(field)
}

/// Whether `field` is a matrix of `rows` by `columns` cells, each of them free
/// (0) or holding the number of a shape (1 to 7).
pub open spec fn is_field(field: Seq<Seq<i32>>, rows: nat, columns: nat) -> bool {
    &&& field.len() == rows
    &&& forall|r: int| 0 <= r < rows ==> (#[trigger] field[r]).len() == columns
    &&& forall|r: int, c: int|
        0 <= r < rows && 0 <= c < columns ==> 0 <= #[trigger] field[r][c] <= 7
}

/// The field after `id` is written into each of `cells` that has neither a
/// negative row nor a negative column; every other cell keeps its value.
pub open spec fn locked(field: Seq<Seq<i32>>, cells: Seq<Cell>, id: i32) -> Seq<Seq<i32>> {
    Seq::new(
        field.len(),
        |r: int|
            Seq::new(
                field[r].len(),
                |c: int|
                    if cells.contains(Cell { row: r, column: c }) {
                        id
                    } else {
                        field[r][c]
                    },
            ),
    )
}

/// Whether each of `cells` without a negative coordinate lies on the field.
pub open spec fn lockable(field: Seq<Seq<i32>>, cells: Seq<Cell>) -> bool {
    forall|i: int|
        0 <= i < cells.len() && 0 <= (#[trigger] cells[i]).row && 0 <= cells[i].column
            ==> cells[i].row < field.len() && cells[i].column < field[cells[i].row].len()
}

/// The tiles that show the field: one for each cell, row by row from the top
/// and each row from the left, in the colour of the number that the cell
/// holds.
pub open spec fn field_tiles(field: Seq<Seq<i32>>) -> Seq<Tile> {
    Seq::new(
        (field.len() * width(field)) as nat,
        |k: int|
            {
                let row = k / (width(field) as int);
                let column = k % (width(field) as int);
                tile_of(
                    row,
                    column,
                    FIELD_CORNER as int,
                    FIELD_CORNER as int,
                    palette()[field[row][column] as int],
                )
            },
    )
}

/// The playfield: a matrix of cells, each free or holding the number of the
/// shape that was locked there.
#[derive(Debug)]
pub struct Grid {
    pub num_rows: usize,
    pub num_cols: usize,
    pub grid: Vec<Vec<i32>>,
}

impl View for Grid {
    type V = Seq<Seq<i32>>;

    open spec fn view(&self) -> Seq<Seq<i32>> {
        Seq::new(self.grid.len() as nat, |r: int| self.grid[r]@)
    }
}

impl Grid {
    /// Whether the grid is a matrix of `num_rows` by `num_cols` valid cells
    /// whose sides can be counted in `i32`.
    pub open spec fn wf(&self) -> bool {
        &&& is_field(self@, self.num_rows as nat, self.num_cols as nat)
        &&& self.num_rows <= i32::MAX
        &&& self.num_cols <= i32::MAX
    }

    /// Whether every cell of the grid can be placed on the screen by `i32`
    /// arithmetic.
    pub open spec fn drawable(&self) -> bool {
        &&& self.num_rows * CELL_SIZE + FIELD_CORNER <= i32::MAX
        &&& self.num_cols * CELL_SIZE + FIELD_CORNER <= i32::MAX
    }

    /// The standard field, with every cell free.
    pub fn new() -> (grid: Self)
        ensures
            grid.wf(),
            grid.num_rows == FIELD_ROWS,
            grid.num_cols == FIELD_COLUMNS,
            grid@ == empty_field(FIELD_ROWS as nat, FIELD_COLUMNS as nat),
    {
        let mut cells: Vec<Vec<i32>> = Vec::new();
        let mut row: usize = 0;
        while row < FIELD_ROWS
            invariant
                row <= FIELD_ROWS,
                cells.len() == row,
                forall|r: int|
                    0 <= r < row ==> (#[trigger] cells[r])@ == empty_row(FIELD_COLUMNS as nat),
            decreases FIELD_ROWS - row,
        {
            let mut line: Vec<i32> = Vec::new();
            let mut col: usize = 0;
            while col < FIELD_COLUMNS
                invariant
                    col <= FIELD_COLUMNS,
                    line.len() == col,
                    forall|c: int| 0 <= c < col ==> line[c] == 0,
                decreases FIELD_COLUMNS - col,
            {
                line.push(0);
                col += 1;
            }
            cells.push(line);
            row += 1;
        }
        Grid { num_rows: FIELD_ROWS, num_cols: FIELD_COLUMNS, grid: cells }
    }

    /// Frees every cell.
    pub fn init(&mut self)
        requires
            old(self).wf(),
        ensures
            final(self).wf(),
            final(self).num_rows == old(self).num_rows,
            final(self).num_cols == old(self).num_cols,
            final(self)@ == empty_field(old(self).num_rows as nat, old(self).num_cols as nat),
    {
        let mut row: usize = 0;
        while row < self.num_rows
            invariant
                row <= self.num_rows,
                self.wf(),
                self.num_rows == old(self).num_rows,
                self.num_cols == old(self).num_cols,
                forall|r: int|
                    0 <= r < row ==> (#[trigger] self@[r]) == empty_row(self.num_cols as nat),
            decreases self.num_rows - row,
        {
            self.clear_row(row);
            row += 1;
        }
    }

    /// Whether the cell lies beyond the last row or the last column.
    pub fn is_cell_outside(&self, row: usize, col: usize) -> (outside: bool)
        ensures
            outside == (row >= self.num_rows || col >= self.num_cols),
    {
        row >= self.num_rows || col >= self.num_cols
    }

    /// Whether the cell is free.
    pub fn is_cell_empty(&self, row: usize, col: usize) -> (empty: bool)
        requires
            row < self@.len(),
            col < self@[row as int].len(),
        ensures
            empty == (self@[row as int][col as int] == 0),
    {
        self.grid[row][col] == 0
    }

    /// Whether every cell of the row is taken.
    pub fn is_row_full(&self, row: usize) -> (full: bool)
        requires
            row < self@.len(),
        ensures
            full == row_full(self@[row as int]),
    {
        let line = &self.grid[row];
        let mut col: usize = 0;
        while col < line.len()
            invariant
                col <= line.len(),
                line@ == self@[row as int],
                forall|c: int| 0 <= c < col ==> line[c] != 0,
            decreases line.len() - col,
        {
            if line[col] == 0 {
                return false;
            }
            col += 1;
        }
        true
    }

    /// Frees every cell of the row.
    pub fn clear_row(&mut self, row: usize)
        requires
            old(self).wf(),
            row < old(self).num_rows,
        ensures
            final(self).wf(),
            final(self).num_rows == old(self).num_rows,
            final(self).num_cols == old(self).num_cols,
            final(self)@ == old(self)@.update(row as int, empty_row(old(self).num_cols as nat)),
    {
        let mut col: usize = 0;
        while col < self.num_cols
            invariant
                col <= self.num_cols,
                row < self.num_rows,
                old(self).wf(),
                self.wf(),
                self.num_rows == old(self).num_rows,
                self.num_cols == old(self).num_cols,
                forall|r: int| 0 <= r < self.num_rows && r != row ==> self@[r] == old(self)@[r],
                forall|c: int| 0 <= c < col ==> self@[row as int][c] == 0,
            decreases self.num_cols - col,
        {
            let ghost before = self@;
            assert(before[row as int].len() == self.num_cols);
            self.grid[row][col] = 0;
            assert(self@ =~= before.update(
                row as int,
                before[row as int].update(col as int, 0i32),
            ));
            col += 1;
        }
        assert(self@[row as int] =~= empty_row(old(self).num_cols as nat));
    }

    /// Moves the row `num_rows` rows down and frees the row it came from.
    ///
    /// Moved by no row at all, the row is only freed.
    pub fn move_row_down(&mut self, row: usize, num_rows: i32)
        requires
            old(self).wf(),
            row < old(self).num_rows,
            0 <= row + num_rows < old(self).num_rows,
        ensures
            final(self).wf(),
            final(self).num_rows == old(self).num_rows,
            final(self).num_cols == old(self).num_cols,
            final(self)@ == old(self)@.update(row + num_rows, old(self)@[row as int]).update(
                row as int,
                empty_row(old(self).num_cols as nat),
            ),
    {
        let target_row = (row as i32 + num_rows) as usize;
        let mut col: usize = 0;
        while col < self.num_cols
            invariant
                col <= self.num_cols,
                row < self.num_rows,
                target_row < self.num_rows,
                target_row == row + num_rows,
                old(self).wf(),
                self.wf(),
                self.num_rows == old(self).num_rows,
                self.num_cols == old(self).num_cols,
                forall|r: int|
                    0 <= r < self.num_rows && r != row && r != target_row ==> self@[r] == old(
                        self,
                    )@[r],
                forall|c: int| 0 <= c < col ==> self@[row as int][c] == 0,
                forall|c: int|
                    col <= c < self.num_cols ==> self@[row as int][c] == old(self)@[row as int][c],
                target_row != row ==> forall|c: int|
                    0 <= c < col ==> self@[target_row as int][c] == old(self)@[row as int][c],
                target_row != row ==> forall|c: int|
                    col <= c < self.num_cols ==> self@[target_row as int][c] == old(
                        self,
                    )@[target_row as int][c],
            decreases self.num_cols - col,
        {
            let ghost before = self@;
            assert(before[row as int].len() == self.num_cols);
            assert(before[target_row as int].len() == self.num_cols);
            let value = self.grid[row][col];
            self.grid[target_row][col] = value;
            let ghost between = self@;
            assert(between =~= before.update(
                target_row as int,
                before[target_row as int].update(col as int, value),
            ));
            self.grid[row][col] = 0;
            assert(self@ =~= between.update(
                row as int,
                between[row as int].update(col as int, 0i32),
            ));
            col += 1;
        }
        assert(self@[row as int] =~= empty_row(old(self).num_cols as nat));
        assert(target_row != row ==> self@[target_row as int] =~= old(self)@[row as int]);
    }

    /// Takes out every full row: the rows above sink by as many rows as were
    /// taken out below them, and free rows come in at the top. Returns how many
    /// rows were taken out.
    pub fn clear_full_rows(&mut self) -> (completed: i32)
        requires
            old(self).wf(),
        ensures
            final(self).wf(),
            final(self).num_rows == old(self).num_rows,
            final(self).num_cols == old(self).num_cols,
            final(self)@ == cleared(old(self)@),
            completed == full_row_count(old(self)@),
            0 <= completed <= old(self).num_rows,
    {
        let mut completed: i32 = 0;
        let mut row: usize = self.num_rows;
        let ghost start = self@;
        let ghost n = self.num_rows as int;
        proof {
            lemma_no_rows();
        }
        while row > 0
            invariant
                row <= self.num_rows,
                n == self.num_rows,
                start == old(self)@,
                old(self).wf(),
                self.wf(),
                self.num_rows == old(self).num_rows,
                self.num_cols == old(self).num_cols,
                0 <= completed,
                completed + row <= self.num_rows,
                completed == full_row_count(start.subrange(row as int, n)),
                forall|r: int| 0 <= r < row ==> self@[r] == start[r],
                forall|r: int|
                    row <= r < row + completed ==> self@[r] == empty_row(self.num_cols as nat),
                self@.subrange(row + completed, n) == kept_rows(start.subrange(row as int, n)),
            decreases row,
        {
            row -= 1;
            proof {
                let below = start.subrange(row + 1, n);
                assert(start.subrange(row as int, n) =~= seq![start[row as int]] + below);
                lemma_rows_prepend(start[row as int], below);
            }
            if self.is_row_full(row) {
                self.clear_row(row);
                completed += 1;
            } else if completed > 0 {
                self.move_row_down(row, completed);
            }
        }
        proof {
            assert(start.subrange(0, n) =~= start);
        }
        completed
    }

    /// Writes `id` into each of `tiles` that has neither a negative row nor a
    /// negative column; the others are passed over.
    pub fn lock_cells(&mut self, tiles: &Vec<Position>, id: i32)
        requires
            old(self).wf(),
            lockable(old(self)@, cells_of(tiles@)),
            0 <= id <= 7,
        ensures
            final(self).wf(),
            final(self).num_rows == old(self).num_rows,
            final(self).num_cols == old(self).num_cols,
            final(self)@ == locked(old(self)@, cells_of(tiles@), id),
    {
        let ghost start = self@;
        let ghost cells = cells_of(tiles@);
        assert(self@ =~~= locked(start, cells.take(0), id));
        let mut i: usize = 0;
        while i < tiles.len()
            invariant
                i <= tiles.len(),
                start == old(self)@,
                cells == cells_of(tiles@),
                old(self).wf(),
                self.wf(),
                self.num_rows == old(self).num_rows,
                self.num_cols == old(self).num_cols,
                lockable(start, cells),
                0 <= id <= 7,
                self@ == locked(start, cells.take(i as int), id),
            decreases tiles.len() - i,
        {
            let tile = tiles[i];
            let ghost before = self@;
            proof {
                lemma_locked_step(start, cells, i as int, id);
            }
            if tile.row >= 0 && tile.column >= 0 {
                let row = tile.row as usize;
                let column = tile.column as usize;
                self.grid[row][column] = id;
                assert(self@ =~= before.update(
                    row as int,
                    before[row as int].update(column as int, id),
                ));
            }
            i += 1;
        }
        assert(cells.take(tiles.len() as int) =~= cells);
    }

    /// The tiles that show the field, for the caller to draw.
    pub fn draw(&self) -> (tiles: Vec<Tile>)
        requires
            self.wf(),
            self.drawable(),
        ensures
            tiles@ == field_tiles(self@),
    {
        let colors = get_cell_colors();
        let mut tiles: Vec<Tile> = Vec::new();
        let ghost all = field_tiles(self@);
        let mut row: usize = 0;
        while row < self.num_rows
            invariant
                row <= self.num_rows,
                self.wf(),
                self.drawable(),
                colors@ == palette(),
                all == field_tiles(self@),
                tiles.len() == row * self.num_cols,
                forall|k: int| 0 <= k < tiles.len() ==> tiles[k] == all[k],
            decreases self.num_rows - row,
        {
            let mut col: usize = 0;
            while col < self.num_cols
                invariant
                    row < self.num_rows,
                    col <= self.num_cols,
                    self.wf(),
                    self.drawable(),
                    colors@ == palette(),
                    all == field_tiles(self@),
                    tiles.len() == row * self.num_cols + col,
                    forall|k: int| 0 <= k < tiles.len() ==> tiles[k] == all[k],
                decreases self.num_cols - col,
            {
                proof {
                    lemma_cell_number(
                        row as int,
                        col as int,
                        self.num_rows as int,
                        self.num_cols as int,
                    );
                    assert(self@[0].len() == self.num_cols);
                    assert(self@[row as int].len() == self.num_cols);
                    assert(0 <= self@[row as int][col as int] <= 7);
                }
                let cell_value = self.grid[row][col];
                tiles.push(
                    cell_tile(
                        row as i32,
                        col as i32,
                        FIELD_CORNER,
                        FIELD_CORNER,
                        colors[cell_value as usize],
                    ),
                );
                col += 1;
            }
            proof {
                assert((row + 1) * self.num_cols == row * self.num_cols + self.num_cols)
                    by (nonlinear_arith);
            }
            row += 1;
        }
        assert(tiles@ =~= all);
        tiles
    }

    /// The number of rows.
    pub fn rows(&self) -> (rows: usize)
        ensures
            rows == self@.len(),
    {
        self.grid.len()
    }

    /// The number of columns: the length of the first row, and 0 without rows.
    pub fn columns(&self) -> (columns: usize)
        ensures
            columns == width(self@),
    {
        if !self.grid.is_empty() {
            self.grid[0].len()
        } else {
            0
        }
    }
}

/// The cell at `row`, `column` of a matrix is cell number `row * columns +
/// column` in the order of the rows, and from that number its row and its
/// column are had again by division.
proof fn lemma_cell_number(row: int, column: int, rows: int, columns: int)
    requires
        0 <= row < rows,
        0 <= column < columns,
    ensures
        0 <= row * columns + column < rows * columns,
        (row * columns + column) / columns == row,
        (row * columns + column) % columns == column,
{
    lemma_fundamental_div_mod_converse(row * columns + column, columns, row, column);
    assert(row * columns + column < rows * columns) by (nonlinear_arith)
        requires
            0 <= row < rows,
            0 <= column < columns,
    ;
    assert(0 <= row * columns) by (nonlinear_arith)
        requires
            0 <= row,
            0 <= columns,
    ;
}

/// A field without rows keeps no row and has no full row.
proof fn lemma_no_rows()
    ensures
        kept_rows(Seq::<Seq<i32>>::empty()) == Seq::<Seq<i32>>::empty(),
        full_row_count(Seq::<Seq<i32>>::empty()) == 0,
{
    reveal(Seq::filter);
}

/// What a row on top of a field adds to the rows that stay and to the number
/// of full rows.
proof fn lemma_rows_prepend(row: Seq<i32>, rest: Seq<Seq<i32>>)
    ensures
        kept_rows(seq![row] + rest) == if row_full(row) {
            kept_rows(rest)
        } else {
            seq![row] + kept_rows(rest)
        },
        full_row_count(seq![row] + rest) == full_row_count(rest) + if row_full(row) {
            1int
        } else {
            0int
        },
{
    let one = seq![row];
    assert(one.filter(stays()) =~= if row_full(row) {
        Seq::<Seq<i32>>::empty()
    } else {
        one
    }) by {
        reveal_with_fuel(Seq::filter, 2);
    }
    assert(one.filter(leaves()) =~= if row_full(row) {
        one
    } else {
        Seq::<Seq<i32>>::empty()
    }) by {
        reveal_with_fuel(Seq::filter, 2);
    }
    Seq::filter_distributes_over_add(one, rest, stays());
    Seq::filter_distributes_over_add(one, rest, leaves());
}

/// What one more cell adds to a field in which the cells before it are locked.
proof fn lemma_locked_step(field: Seq<Seq<i32>>, cells: Seq<Cell>, i: int, id: i32)
    requires
        0 <= i < cells.len(),
        lockable(field, cells),
    ensures
        locked(field, cells.take(i + 1), id) == if 0 <= cells[i].row && 0 <= cells[i].column {
            locked(field, cells.take(i), id).update(
                cells[i].row,
                locked(field, cells.take(i), id)[cells[i].row].update(cells[i].column, id),
            )
        } else {
            locked(field, cells.take(i), id)
        },
{
    let before = cells.take(i);
    let after = cells.take(i + 1);
    assert forall|cell: Cell|
        after.contains(cell) <==> before.contains(cell) || cell == cells[i] by {
        if cell == cells[i] {
            assert(after[i] == cell);
        }
    }
    let target = if 0 <= cells[i].row && 0 <= cells[i].column {
        locked(field, before, id).update(
            cells[i].row,
            locked(field, before, id)[cells[i].row].update(cells[i].column, id),
        )
    } else {
        locked(field, before, id)
    };
    assert(locked(field, after, id) =~~= target);
}

/// Every row of a field either stays or is cleared.
pub proof fn lemma_rows_stay_or_leave(field: Seq<Seq<i32>>)
    ensures
        kept_rows(field).len() + full_row_count(field) == field.len(),
    decreases field.len(),
{
    if field.len() == 0 {
        lemma_no_rows();
    } else {
        let rest = field.subrange(1, field.len() as int);
        assert(field =~= seq![field[0]] + rest);
        lemma_rows_prepend(field[0], rest);
        lemma_rows_stay_or_leave(rest);
    }
}

/// Taking out the full rows leaves the field with as many rows as it had. Its
/// top rows, as many as were full, are free. Each row that was not full lies
/// lower by the number of full rows that were below it, its cells unchanged.
pub proof fn lemma_cleared_rows(field: Seq<Seq<i32>>)
    ensures
        cleared(field).len() == field.len(),
        kept_rows(field).len() == field.len() - full_row_count(field),
        forall|r: int|
            0 <= r < full_row_count(field) ==> #[trigger] cleared(field)[r] == empty_row(
                width(field),
            ),
        forall|r: int|
            0 <= r < field.len() && !row_full(#[trigger] field[r]) ==> 0 <= r + full_row_count(
                field.subrange(r + 1, field.len() as int),
            ) < field.len() && cleared(field)[r + full_row_count(
                field.subrange(r + 1, field.len() as int),
            )] == field[r],
{
    let n = field.len() as int;
    lemma_rows_stay_or_leave(field);
    assert forall|r: int| 0 <= r < n && !row_full(#[trigger] field[r]) implies 0 <= r
        + full_row_count(field.subrange(r + 1, n)) < n && cleared(field)[r + full_row_count(
        field.subrange(r + 1, n),
    )] == field[r] by {
        let above = field.subrange(0, r);
        let below = field.subrange(r + 1, n);
        assert(field =~= above + (seq![field[r]] + below));
        lemma_rows_prepend(field[r], below);
        Seq::filter_distributes_over_add(above, seq![field[r]] + below, stays());
        Seq::filter_distributes_over_add(above, seq![field[r]] + below, leaves());
        lemma_rows_stay_or_leave(above);
        lemma_rows_stay_or_leave(below);
    }
}

/// Taking out the full rows of a matrix of valid cells leaves a matrix of
/// valid cells with the same sides.
pub proof fn lemma_cleared_is_field(field: Seq<Seq<i32>>, rows: nat, columns: nat)
    requires
        is_field(field, rows, columns),
    ensures
        is_field(cleared(field), rows, columns),
        width(cleared(field)) == width(field),
{
    lemma_rows_stay_or_leave(field);
    let after = cleared(field);
    let k = full_row_count(field) as int;
    let kept = kept_rows(field);
    assert forall|r: int| 0 <= r < rows implies {
        &&& (#[trigger] after[r]).len() == columns
        &&& forall|c: int| 0 <= c < columns ==> 0 <= #[trigger] after[r][c] <= 7
    } by {
        if r >= k {
            let row = kept[r - k];
            field.lemma_filter_contains_rev(stays(), row);
        }
    }
}

/// Locking cells into a matrix of valid cells leaves a matrix of valid cells
/// with the same sides.
pub proof fn lemma_locked_is_field(
    field: Seq<Seq<i32>>,
    rows: nat,
    columns: nat,
    cells: Seq<Cell>,
    id: i32,
)
    requires
        is_field(field, rows, columns),
        0 <= id <= 7,
    ensures
        is_field(locked(field, cells, id), rows, columns),
        width(locked(field, cells, id)) == width(field),
{
}

/// After the full rows of a matrix with at least one column are taken out,
/// no row is full.
pub proof fn lemma_cleared_has_no_full_row(field: Seq<Seq<i32>>, rows: nat, columns: nat)
    requires
        is_field(field, rows, columns),
        columns > 0,
    ensures
        no_full_row(cleared(field)),
        full_row_count(cleared(field)) == 0,
{
    lemma_rows_stay_or_leave(field);
    let after = cleared(field);
    let k = full_row_count(field) as int;
    assert forall|r: int| 0 <= r < after.len() implies !row_full(#[trigger] after[r]) by {
        if r < k {
            assert(after[r][0] == 0);
        } else {
            field.lemma_filter_pred(stays(), r - k);
        }
    }
    after.lemma_all_neg_filter_empty(leaves());
}

/// A field of free cells with at least one column has no full row.
pub proof fn lemma_empty_field_has_no_full_row(rows: nat, columns: nat)
    requires
        columns > 0,
    ensures
        no_full_row(empty_field(rows, columns)),
{
    let field = empty_field(rows, columns);
    assert forall|r: int| 0 <= r < field.len() implies !row_full(#[trigger] field[r]) by {
        assert(field[r][0] == 0);
    }
}

/// A field has no more full rows than `numbers` has members, if `numbers`
/// holds the number of every full row.
pub proof fn lemma_full_rows_counted(field: Seq<Seq<i32>>, numbers: Set<int>)
    requires
        numbers.finite(),
        forall|r: int|
            0 <= r < field.len() && row_full(#[trigger] field[r]) ==> numbers.contains(r),
    ensures
        full_row_count(field) <= numbers.len(),
    decreases field.len(),
{
    reveal(Seq::filter);
    if field.len() > 0 {
        let last = field.len() - 1;
        lemma_full_rows_counted(field.drop_last(), numbers.remove(last));
    }
}

} // verus!
