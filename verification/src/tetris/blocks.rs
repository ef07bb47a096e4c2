use vstd::prelude::*;
use super::position::Position;
use super::tetris_block::{Piece, TetrisBlock};

verus! {

/// Number of rotation states that every shape has.
pub const ROTATION_STATES: usize = 4;

/// Number of cells that a piece occupies in every rotation state.
pub const CELLS_PER_BLOCK: usize = 4;

/// The layout made of the four cells `(r0, c0)` .. `(r3, c3)`, in this order.
pub open spec fn layout_of(
    r0: i32, c0: i32, r1: i32, c1: i32, r2: i32, c2: i32, r3: i32, c3: i32,
) -> Seq<Position> {
    seq![
        Position { row: r0, column: c0 },
        Position { row: r1, column: c1 },
        Position { row: r2, column: c2 },
        Position { row: r3, column: c3 },
    ]
}

/// The four rotation states of the shape with number `id`, each a layout of
/// four cells relative to the corner of the shape's box.
///
/// Shapes 1 to 7 are L, J, I, O, S, T and Z. Every other number stands for the
/// square as well, so that the table is total.
pub open spec fn shape_layouts(id: int) -> Seq<Seq<Position>> {
    if id == 1 {
        seq![
            layout_of(0, 2, 1, 0, 1, 1, 1, 2),
            layout_of(0, 1, 1, 1, 2, 1, 2, 2),
            layout_of(1, 0, 1, 1, 1, 2, 2, 0),
            layout_of(0, 0, 0, 1, 1, 1, 2, 1),
        ]
    } else if id == 2 {
        seq![
            layout_of(0, 0, 1, 0, 1, 1, 1, 2),
            layout_of(0, 1, 0, 2, 1, 1, 2, 1),
            layout_of(1, 0, 1, 1, 1, 2, 2, 2),
            layout_of(0, 1, 1, 1, 2, 0, 2, 1),
        ]
    } else if id == 3 {
        seq![
            layout_of(1, 0, 1, 1, 1, 2, 1, 3),
            layout_of(0, 2, 1, 2, 2, 2, 3, 2),
            layout_of(2, 0, 2, 1, 2, 2, 2, 3),
            layout_of(0, 1, 1, 1, 2, 1, 3, 1),
        ]
    } else if id == 5 {
        seq![
            layout_of(0, 1, 0, 2, 1, 0, 1, 1),
            layout_of(0, 1, 1, 1, 1, 2, 2, 2),
            layout_of(1, 1, 1, 2, 2, 0, 2, 1),
            layout_of(0, 0, 1, 0, 1, 1, 2, 1),
        ]
    } else if id == 6 {
        seq![
            layout_of(0, 1, 1, 0, 1, 1, 1, 2),
            layout_of(0, 1, 1, 1, 1, 2, 2, 1),
            layout_of(1, 0, 1, 1, 1, 2, 2, 1),
            layout_of(0, 1, 1, 0, 1, 1, 2, 1),
        ]
    } else if id == 7 {
        seq![
            layout_of(0, 0, 0, 1, 1, 1, 1, 2),
            layout_of(0, 2, 1, 1, 1, 2, 2, 1),
            layout_of(1, 0, 1, 1, 2, 1, 2, 2),
            layout_of(0, 1, 1, 0, 1, 1, 2, 0),
        ]
    } else {
        seq![
            layout_of(0, 0, 0, 1, 1, 0, 1, 1),
            layout_of(0, 0, 0, 1, 1, 0, 1, 1),
            layout_of(0, 0, 0, 1, 1, 0, 1, 1),
            layout_of(0, 0, 0, 1, 1, 0, 1, 1),
        ]
    }
}

/// What a table of layouts held in vectors stands for.
pub open spec fn layouts_view(cells: Vec<Vec<Position>>) -> Seq<Seq<Position>> {
    Seq::new(cells.len() as nat, |k: int| cells[k]@)
}

fn layout(
    r0: i32, c0: i32, r1: i32, c1: i32, r2: i32, c2: i32, r3: i32, c3: i32,
) -> (cells: Vec<Position>)
    ensures
        cells@ == layout_of(r0, c0, r1, c1, r2, c2, r3, c3),
{
    vec![
        Position { row: r0, column: c0 },
        Position { row: r1, column: c1 },
        Position { row: r2, column: c2 },
        Position { row: r3, column: c3 },
    ]
}

/// The rotation states of the shape with number `id`.
pub fn get_block_position(id: u32) -> (cells: Vec<Vec<Position>>)
    ensures
        cells.len() == ROTATION_STATES,
        layouts_view(cells) == shape_layouts(id as int),
{
    match id {
        1 => vec![
            layout(0, 2, 1, 0, 1, 1, 1, 2),
            layout(0, 1, 1, 1, 2, 1, 2, 2),
            layout(1, 0, 1, 1, 1, 2, 2, 0),
            layout(0, 0, 0, 1, 1, 1, 2, 1),
        ],
        2 => vec![
            layout(0, 0, 1, 0, 1, 1, 1, 2),
            layout(0, 1, 0, 2, 1, 1, 2, 1),
            layout(1, 0, 1, 1, 1, 2, 2, 2),
            layout(0, 1, 1, 1, 2, 0, 2, 1),
        ],
        3 => vec![
            layout(1, 0, 1, 1, 1, 2, 1, 3),
            layout(0, 2, 1, 2, 2, 2, 3, 2),
            layout(2, 0, 2, 1, 2, 2, 2, 3),
            layout(0, 1, 1, 1, 2, 1, 3, 1),
        ],
        5 => vec![
            layout(0, 1, 0, 2, 1, 0, 1, 1),
            layout(0, 1, 1, 1, 1, 2, 2, 2),
            layout(1, 1, 1, 2, 2, 0, 2, 1),
            layout(0, 0, 1, 0, 1, 1, 2, 1),
        ],
        6 => vec![
            layout(0, 1, 1, 0, 1, 1, 1, 2),
            layout(0, 1, 1, 1, 1, 2, 2, 1),
            layout(1, 0, 1, 1, 1, 2, 2, 1),
            layout(0, 1, 1, 0, 1, 1, 2, 1),
        ],
        7 => vec![
            layout(0, 0, 0, 1, 1, 1, 1, 2),
            layout(0, 2, 1, 1, 1, 2, 2, 1),
            layout(1, 0, 1, 1, 2, 1, 2, 2),
            layout(0, 1, 1, 0, 1, 1, 2, 0),
        ],
        _ => vec![
            layout(0, 0, 0, 1, 1, 0, 1, 1),
            layout(0, 0, 0, 1, 1, 0, 1, 1),
            layout(0, 0, 0, 1, 1, 0, 1, 1),
            layout(0, 0, 0, 1, 1, 0, 1, 1),
        ],
    }
}

/// The piece of shape `id` as it enters the game: unturned, its box four
/// columns from the left for the square and three for the others, and one row
/// above the field for the bar, whose first state has its upper row free.
pub open spec fn spawn(id: int) -> Piece {
    Piece {
        id,
        rotation: 0,
        row_offset: if id == 3 {
            -1
        } else {
            0
        },
        column_offset: if id == 4 {
            4
        } else {
            3
        },
    }
}

/// The L shape, number 1.
pub struct LBlock {
    pub block: TetrisBlock,
}

impl LBlock {
    /// The L shape as it enters the game.
    pub fn new() -> (shape: Self)
        ensures
            shape.block.wf(),
            shape.block@ == spawn(1),
    {
        let mut block = TetrisBlock::new();
        block.id = 1;
        block.cells = get_block_position(1);
        block.move_block(0, 3);
        LBlock { block }
    }
}

/// The J shape, number 2.
pub struct JBlock {
    pub block: TetrisBlock,
}

impl JBlock {
    /// The J shape as it enters the game.
    pub fn new() -> (shape: Self)
        ensures
            shape.block.wf(),
            shape.block@ == spawn(2),
    {
        let mut block = TetrisBlock::new();
        block.id = 2;
        block.cells = get_block_position(2);
        block.move_block(0, 3);
        JBlock { block }
    }
}

/// The bar, number 3.
pub struct IBlock {
    pub block: TetrisBlock,
}

impl IBlock {
    /// The bar as it enters the game.
    pub fn new() -> (shape: Self)
        ensures
            shape.block.wf(),
            shape.block@ == spawn(3),
    {
        let mut block = TetrisBlock::new();
        block.id = 3;
        block.cells = get_block_position(3);
        block.move_block(-1, 3);
        IBlock { block }
    }
}

/// The square, number 4.
pub struct OBlock {
    pub block: TetrisBlock,
}

impl OBlock {
    /// The square as it enters the game.
    pub fn new() -> (shape: Self)
        ensures
            shape.block.wf(),
            shape.block@ == spawn(4),
    {
        let mut block = TetrisBlock::new();
        block.id = 4;
        block.cells = get_block_position(4);
        block.move_block(0, 4);
        OBlock { block }
    }
}

/// The S shape, number 5.
pub struct SBlock {
    pub block: TetrisBlock,
}

impl SBlock {
    /// The S shape as it enters the game.
    pub fn new() -> (shape: Self)
        ensures
            shape.block.wf(),
            shape.block@ == spawn(5),
    {
        let mut block = TetrisBlock::new();
        block.id = 5;
        block.cells = get_block_position(5);
        block.move_block(0, 3);
        SBlock { block }
    }
}

/// The T shape, number 6.
pub struct TBlock {
    pub block: TetrisBlock,
}

impl TBlock {
    /// The T shape as it enters the game.
    pub fn new() -> (shape: Self)
        ensures
            shape.block.wf(),
            shape.block@ == spawn(6),
    {
        let mut block = TetrisBlock::new();
        block.id = 6;
        block.cells = get_block_position(6);
        block.move_block(0, 3);
        TBlock { block }
    }
}

/// The Z shape, number 7.
pub struct ZBlock {
    pub block: TetrisBlock,
}

impl ZBlock {
    /// The Z shape as it enters the game.
    pub fn new() -> (shape: Self)
        ensures
            shape.block.wf(),
            shape.block@ == spawn(7),
    {
        let mut block = TetrisBlock::new();
        block.id = 7;
        block.cells = get_block_position(7);
        block.move_block(0, 3);
        ZBlock { block }
    }
}

/// One of the seven shapes.
pub enum BlockType {
    IBlock(IBlock),
    JBlock(JBlock),
    LBlock(LBlock),
    OBlock(OBlock),
    SBlock(SBlock),
    TBlock(TBlock),
    ZBlock(ZBlock),
}

impl BlockType {
    /// The piece that the shape holds.
    pub open spec fn block(&self) -> TetrisBlock {
        match self {
            BlockType::IBlock(shape) => shape.block,
            BlockType::JBlock(shape) => shape.block,
            BlockType::LBlock(shape) => shape.block,
            BlockType::OBlock(shape) => shape.block,
            BlockType::SBlock(shape) => shape.block,
            BlockType::TBlock(shape) => shape.block,
            BlockType::ZBlock(shape) => shape.block,
        }
    }

    /// A copy of the piece that the shape holds.
    pub fn to_tetris_block(&self) -> (block: TetrisBlock)
        ensures
            block@ == self.block()@,
            layouts_view(block.cells) == layouts_view(self.block().cells),
    {
        match self {
            BlockType::IBlock(shape) => shape.block.clone(),
            BlockType::JBlock(shape) => shape.block.clone(),
            BlockType::LBlock(shape) => shape.block.clone(),
            BlockType::OBlock(shape) => shape.block.clone(),
            BlockType::SBlock(shape) => shape.block.clone(),
            BlockType::TBlock(shape) => shape.block.clone(),
            BlockType::ZBlock(shape) => shape.block.clone(),
        }
    }
}

/// The side of the square box in which the shape turns: four cells for the
/// bar, two for the square, three for the others.
pub open spec fn box_side(id: int) -> int {
    if id == 3 {
        4
    } else if 1 <= id <= 7 && id != 4 {
        3
    } else {
        2
    }
}

/// The cell to which a quarter turn clockwise brings `cell` in a box of
/// `side` by `side` cells.
pub open spec fn quarter_turn(cell: Position, side: int) -> Position {
    Position { row: cell.column, column: (side - 1 - cell.row) as i32 }
}

/// Each rotation state of a shape is the quarter turn clockwise of the state
/// before it, and the first that of the last: a cell of one state, turned in
/// the shape's box, is a cell of the next.
pub proof fn lemma_states_are_quarter_turns(id: int, rotation: int, i: int)
    requires
        0 <= rotation < 4,
        0 <= i < 4,
    ensures
        shape_layouts(id)[(rotation + 1) % 4].contains(
            quarter_turn(shape_layouts(id)[rotation][i], box_side(id)),
        ),
{
    let next = shape_layouts(id)[(rotation + 1) % 4];
    let turned = quarter_turn(shape_layouts(id)[rotation][i], box_side(id));
    assert(next[0] == turned || next[1] == turned || next[2] == turned || next[3] == turned);
}

} // verus!
