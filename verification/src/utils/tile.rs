use vstd::prelude::*;
use super::colors::Color;

verus! {

/// Side of a cell on the screen, in pixels.
pub const CELL_SIZE: i32 = 30;

/// How far the corner of the field lies from the corner of the window, in
/// pixels, both across and down.
pub const FIELD_CORNER: i32 = 11;

/// A filled rectangle on the screen: its upper left corner, its sides, and
/// its colour.
#[derive(Clone, Copy, Debug, PartialEq, Eq, Structural)]
pub struct Tile {
    pub x: i32,
    pub y: i32,
    pub width: i32,
    pub height: i32,
    pub color: Color,
}

/// Whether the cell can be placed on the screen by `i32` arithmetic when the
/// cell at row 0 and column 0 has its corner at `offset_x`, `offset_y`.
pub open spec fn on_screen(row: int, column: int, offset_x: int, offset_y: int) -> bool {
    &&& i32::MIN <= column * CELL_SIZE <= i32::MAX
    &&& i32::MIN <= column * CELL_SIZE + offset_x <= i32::MAX
    &&& i32::MIN <= row * CELL_SIZE <= i32::MAX
    &&& i32::MIN <= row * CELL_SIZE + offset_y <= i32::MAX
}

/// The tile that shows the cell at `row`, `column` in `color`: a square one
/// pixel short of a cell on each side, so that a line of the background stays
/// between neighbours.
pub open spec fn tile_of(
    row: int,
    column: int,
    offset_x: int,
    offset_y: int,
    color: Color,
) -> Tile {
    Tile {
        x: (column * CELL_SIZE + offset_x) as i32,
        y: (row * CELL_SIZE + offset_y) as i32,
        width: (CELL_SIZE - 1) as i32,
        height: (CELL_SIZE - 1) as i32,
        color,
    }
}

/// The tile that shows the cell at `row`, `column` in `color`.
pub fn cell_tile(row: i32, column: i32, offset_x: i32, offset_y: i32, color: Color) -> (tile: Tile)
    requires
        on_screen(row as int, column as int, offset_x as int, offset_y as int),
    ensures
        tile == tile_of(row as int, column as int, offset_x as int, offset_y as int, color),
{
    Tile {
        x: column * CELL_SIZE + offset_x,
        y: row * CELL_SIZE + offset_y,
        width: CELL_SIZE - 1,
        height: CELL_SIZE - 1,
        color,
    }
}

} // verus!
