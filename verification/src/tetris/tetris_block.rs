use vstd::prelude::*;
use super::blocks::{
    get_block_position, layouts_view, shape_layouts, CELLS_PER_BLOCK, ROTATION_STATES,
};
use super::position::{cells_of, Cell, Position};
use crate::utils::colors::{get_cell_colors, palette};
use crate::utils::tile::{cell_tile, on_screen, tile_of, Tile};

verus! {

/// A piece on the unbounded plane: its shape, how far it is turned, and how
/// far the corner of its box lies from the corner of the field.
pub struct Piece {
    pub id: int,
    pub rotation: int,
    pub row_offset: int,
    pub column_offset: int,
}

impl Piece {
    /// The four cells of the piece's present rotation state, relative to its box.
    pub open spec fn layout(self) -> Seq<Position> {
        shape_layouts(self.id)[self.rotation]
    }

    /// The four cells of the plane that the piece occupies.
    pub open spec fn cells(self) -> Seq<Cell> {
        Seq::new(
            4,
            |i: int|
                Cell {
                    row: self.layout()[i].row + self.row_offset,
                    column: self.layout()[i].column + self.column_offset,
                },
        )
    }

    /// Whether each cell of the piece can be placed on the screen by `i32`
    /// arithmetic when the cell at row 0 and column 0 has its corner at
    /// `offset_x`, `offset_y`.
    pub open spec fn drawable(self, offset_x: int, offset_y: int) -> bool {
        forall|i: int|
            0 <= i < 4 ==> on_screen(
                (#[trigger] self.cells()[i]).row,
                self.cells()[i].column,
                offset_x,
                offset_y,
            )
    }

    /// The four tiles that show the piece, in the colour of its shape.
    pub open spec fn tiles(self, offset_x: int, offset_y: int) -> Seq<Tile> {
        Seq::new(
            4,
            |i: int|
                tile_of(
                    self.cells()[i].row,
                    self.cells()[i].column,
                    offset_x,
                    offset_y,
                    palette()[self.id],
                ),
        )
    }

    /// The piece after a shift by `rows` down and `columns` to the right.
    pub open spec fn moved(self, rows: int, columns: int) -> Piece {
        Piece {
            row_offset: self.row_offset + rows,
            column_offset: self.column_offset + columns,
            ..self
        }
    }

    /// The piece after a quarter turn forward.
    pub open spec fn rotated(self) -> Piece {
        Piece { rotation: (self.rotation + 1) % 4, ..self }
    }

    /// The piece after a quarter turn backward.
    pub open spec fn unrotated(self) -> Piece {
        Piece { rotation: (self.rotation + 3) % 4, ..self }
    }
}

/// A piece: a shape with its table of rotation states, the state it is in,
/// and its offset from the corner of the field.
#[derive(Debug)]
pub struct TetrisBlock {
    pub id: usize,
    pub rotation_state: usize,
    pub row_offset: i32,
    pub column_offset: i32,
    pub cells: Vec<Vec<Position>>,
}

impl View for TetrisBlock {
    type V = Piece;

    open spec fn view(&self) -> Piece {
        Piece {
            id: self.id as int,
            rotation: self.rotation_state as int,
            row_offset: self.row_offset as int,
            column_offset: self.column_offset as int,
        }
    }
}

impl Clone for TetrisBlock {
    /// A copy of the block with a table of its own.
    fn clone(&self) -> (copy: Self)
        ensures
            copy@ == self@,
            layouts_view(copy.cells) == layouts_view(self.cells),
    {
        let mut cells: Vec<Vec<Position>> = Vec::new();
        let mut k: usize = 0;
        while k < self.cells.len()
            invariant
                k <= self.cells.len(),
                cells.len() == k,
                forall|j: int| 0 <= j < k ==> cells[j]@ == self.cells[j]@,
            decreases self.cells.len() - k,
        {
            let mut state: Vec<Position> = Vec::new();
            let mut i: usize = 0;
            while i < self.cells[k].len()
                invariant
                    k < self.cells.len(),
                    i <= self.cells[k as int].len(),
                    state.len() == i,
                    forall|j: int| 0 <= j < i ==> state[j] == self.cells[k as int][j],
                decreases self.cells[k as int].len() - i,
            {
                state.push(self.cells[k][i]);
                i += 1;
            }
            cells.push(state);
            k += 1;
        }
        TetrisBlock {
            id: self.id,
            rotation_state: self.rotation_state,
            row_offset: self.row_offset,
            column_offset: self.column_offset,
            cells,
        }
    }
}

impl TetrisBlock {
    /// Whether the block is one of the table's shapes, in one of its four
    /// rotation states, with its whole box on the plane that `i32` can name.
    pub open spec fn wf(&self) -> bool {
        &&& self.id <= 7
        &&& self.rotation_state < ROTATION_STATES
        &&& layouts_view(self.cells) == shape_layouts(self.id as int)
        &&& self.row_offset <= i32::MAX - 3
        &&& self.column_offset <= i32::MAX - 3
    }

    /// Whether the block has room on the plane that `i32` can name to step
    /// one cell in every direction.
    pub open spec fn can_step(&self) -> bool {
        &&& i32::MIN < self.row_offset <= i32::MAX - 4
        &&& i32::MIN < self.column_offset <= i32::MAX - 4
    }

    /// The empty piece: shape number 0, unturned, at the corner of the field.
    pub fn new() -> (block: Self)
        ensures
            block.wf(),
            block@ == (Piece { id: 0, rotation: 0, row_offset: 0, column_offset: 0 }),
    {
        TetrisBlock {
            id: 0,
            rotation_state: 0,
            row_offset: 0,
            column_offset: 0,
            cells: get_block_position(0),
        }
    }

    /// Shifts the block by `rows` down and `columns` to the right. Nothing is
    /// checked against a field: that is the caller's part.
    pub fn move_block(&mut self, rows: i32, columns: i32)
        requires
            i32::MIN <= old(self).row_offset + rows <= i32::MAX,
            i32::MIN <= old(self).column_offset + columns <= i32::MAX,
        ensures
            final(self)@ == old(self)@.moved(rows as int, columns as int),
            final(self).cells == old(self).cells,
    {
        self.row_offset += rows;
        self.column_offset += columns;
    }

    /// The four cells that the block occupies, in the order of its layout.
    pub fn get_cell_positions(&self) -> (tiles: Vec<Position>)
        requires
            self.wf(),
        ensures
            tiles.len() == CELLS_PER_BLOCK,
            cells_of(tiles@) == self@.cells(),
    {
        proof {
            lemma_layout_bounds(self.id as int, self.rotation_state as int);
        }
        let tiles = &self.cells[self.rotation_state];
        let mut moved_tiles: Vec<Position> = Vec::new();
        let mut i: usize = 0;
        while i < CELLS_PER_BLOCK
            invariant
                i <= 4,
                self.wf(),
                tiles@ == self@.layout(),
                tiles@.len() == 4,
                forall|j: int|
                    0 <= j < 4 ==> {
                        &&& 0 <= (#[trigger] tiles@[j]).row <= 3
                        &&& 0 <= tiles@[j].column <= 3
                    },
                moved_tiles.len() == i,
                forall|j: int| 0 <= j < i ==> (#[trigger] moved_tiles[j])@ == self@.cells()[j],
            decreases 4 - i,
        {
            let tile = tiles[i];
            let new_pos = Position {
                row: tile.row + self.row_offset,
                column: tile.column + self.column_offset,
            };
            moved_tiles.push(new_pos);
            i += 1;
        }
        moved_tiles
    }

    /// The tiles that show the block, for the caller to draw, when the cell
    /// at row 0 and column 0 has its corner at `offset_x`, `offset_y`.
    pub fn draw(&self, offset_x: i32, offset_y: i32) -> (tiles: Vec<Tile>)
        requires
            self.wf(),
            self@.drawable(offset_x as int, offset_y as int),
        ensures
            tiles@ == self@.tiles(offset_x as int, offset_y as int),
    {
        let colors = get_cell_colors();
        let cells = self.get_cell_positions();
        let mut tiles: Vec<Tile> = Vec::new();
        let mut i: usize = 0;
        while i < CELLS_PER_BLOCK
            invariant
                i <= 4,
                self.id <= 7,
                colors@ == palette(),
                cells.len() == 4,
                cells_of(cells@) == self@.cells(),
                self@.drawable(offset_x as int, offset_y as int),
                tiles.len() == i,
                forall|j: int|
                    0 <= j < i ==> tiles[j] == self@.tiles(offset_x as int, offset_y as int)[j],
            decreases 4 - i,
        {
            let cell = cells[i];
            assert(cell@ == cells_of(cells@)[i as int]);
            tiles.push(cell_tile(cell.row, cell.column, offset_x, offset_y, colors[self.id]));
            i += 1;
        }
        assert(tiles@ =~= self@.tiles(offset_x as int, offset_y as int));
        tiles
    }

    /// Turns the block a quarter turn forward: the state after the last is the first.
    pub fn rotate(&mut self)
        requires
            old(self).rotation_state < 4,
        ensures
            final(self)@ == old(self)@.rotated(),
            final(self).cells == old(self).cells,
    {
        self.rotation_state += 1;
        if self.rotation_state == 4 {
            self.rotation_state = 0;
        }
    }

    /// Turns the block a quarter turn backward: the exact inverse of [`Self::rotate`].
    pub fn undo_rotation(&mut self)
        requires
            old(self).rotation_state < 4,
        ensures
            final(self)@ == old(self)@.unrotated(),
            final(self).cells == old(self).cells,
    {
        if self.rotation_state == 0 {
            self.rotation_state = 3;
        } else {
            self.rotation_state -= 1;
        }
    }
}

/// Every shape has four rotation states of four cells each, and every cell
/// lies in the shape's box of four by four.
pub proof fn lemma_layout_bounds(id: int, rotation: int)
    requires
        0 <= rotation < 4,
    ensures
        shape_layouts(id).len() == 4,
        shape_layouts(id)[rotation].len() == 4,
        forall|i: int|
            0 <= i < 4 ==> 0 <= (#[trigger] shape_layouts(id)[rotation][i]).row <= 3 && 0
                <= shape_layouts(id)[rotation][i].column <= 3,
{
}

/// Four quarter turns forward bring a piece back to the state it was in.
pub proof fn lemma_four_turns(piece: Piece)
    requires
        0 <= piece.rotation < 4,
    ensures
        piece.rotated().rotated().rotated().rotated() == piece,
{
}

/// A quarter turn backward undoes a quarter turn forward, and the other way
/// round, from any of the four states.
pub proof fn lemma_turn_and_back(piece: Piece)
    requires
        0 <= piece.rotation < 4,
    ensures
        piece.rotated().unrotated() == piece,
        piece.unrotated().rotated() == piece,
        0 <= piece.rotated().rotation < 4,
        0 <= piece.unrotated().rotation < 4,
{
}

/// A shift and the opposite shift leave a piece where it was.
pub proof fn lemma_move_and_back(piece: Piece, rows: int, columns: int)
    ensures
        piece.moved(rows, columns).moved(-rows, -columns) == piece,
{
}

/// The four cells of a piece are four different cells.
pub proof fn lemma_cells_differ(piece: Piece)
    requires
        0 <= piece.rotation < 4,
    ensures
        piece.cells().len() == 4,
        piece.cells().no_duplicates(),
{
    let layout = piece.layout();
    lemma_layout_bounds(piece.id, piece.rotation);
    assert(layout[0] != layout[1] && layout[0] != layout[2] && layout[0] != layout[3]);
    assert(layout[1] != layout[2] && layout[1] != layout[3] && layout[2] != layout[3]);
}

} // verus!
