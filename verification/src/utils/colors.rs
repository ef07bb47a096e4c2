use vstd::prelude::*;

verus! {

/// A colour by its red, green and blue parts and its opacity.
#[derive(Clone, Copy, Debug, PartialEq, Eq, Structural)]
pub struct Color {
    pub r: u8,
    pub g: u8,
    pub b: u8,
    pub a: u8,
}

/// The colour with these parts that nothing shines through.
pub open spec fn solid(r: u8, g: u8, b: u8) -> Color {
    Color { r, g, b, a: 255 }
}

/// The colours of the game. The first eight are those of the cells, by the
/// number that a cell holds: dark grey for the free cell, then green, red,
/// orange, yellow, purple, cyan and blue for the seven shapes. Light blue and
/// dark blue close the list; no cell holds their numbers.
pub open spec fn palette() -> Seq<Color> {
    seq![
        solid(26, 31, 40),
        solid(47, 230, 23),
        solid(232, 18, 18),
        solid(226, 116, 17),
        solid(237, 234, 4),
        solid(166, 0, 247),
        solid(21, 204, 209),
        solid(13, 64, 216),
        solid(59, 85, 162),
        solid(44, 44, 127),
    ]
}

fn color(r: u8, g: u8, b: u8) -> (color: Color)
    ensures
        color == solid(r, g, b),
{
    Color { r, g, b, a: 255 }
}

/// The colours of the game, those of the cells first.
pub fn get_cell_colors() -> (colors: Vec<Color>)
    ensures
        colors@ == palette(),
{
    vec![
        color(26, 31, 40),
        color(47, 230, 23),
        color(232, 18, 18),
        color(226, 116, 17),
        color(237, 234, 4),
        color(166, 0, 247),
        color(21, 204, 209),
        color(13, 64, 216),
        color(59, 85, 162),
        color(44, 44, 127),
    ]
}

} // verus!
