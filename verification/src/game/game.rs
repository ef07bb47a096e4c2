use vstd::prelude::*;
use super::laws::{lemma_inside_offsets, lemma_spawn_inside};
use super::state::{
    cell_fits, cell_outside, drawn_id, landing, line_bonus, piece_fits, piece_inside, shape_order,
    GameState, Key, Signals,
};
use crate::utils::tile::{Tile, FIELD_CORNER};
use crate::rand::SplitMixXoshiro256Rng;
use crate::stage::grid::{
    lemma_cleared_has_no_full_row, lemma_empty_field_has_no_full_row, width, Grid,
};
use crate::tetris::blocks::{
    spawn, BlockType, IBlock, JBlock, LBlock, OBlock, SBlock, TBlock, ZBlock,
};
use crate::tetris::position::cells_of;
use crate::tetris::tetris_block::TetrisBlock;

verus! {

/// A game: the playfield, the piece in play and the one that comes next, the
/// score, and the generator that draws the pieces.
pub struct Game {
    pub grid: Grid,
    pub blocks: Vec<TetrisBlock>,
    pub current_block: TetrisBlock,
    pub next_block: TetrisBlock,
    pub game_over: bool,
    pub score: u32,
    pub rng: SplitMixXoshiro256Rng,
}

impl View for Game {
    type V = GameState;

    open spec fn view(&self) -> GameState {
        GameState {
            grid: self.grid@,
            current: self.current_block@,
            next: self.next_block@,
            game_over: self.game_over,
            score: self.score as int,
            rng: self.rng,
        }
    }
}

/// Whether `blocks` holds the seven pieces as they enter the game, in the
/// order of a draw.
pub open spec fn all_blocks(blocks: Seq<TetrisBlock>) -> bool {
    &&& blocks.len() == 7
    &&& forall|k: int|
        0 <= k < 7 ==> (#[trigger] blocks[k]).wf() && blocks[k]@ == spawn(shape_order()[k])
}

impl Game {
    /// Whether the game is in order: its state is that of a game, the field
    /// is small enough for the box of a piece at its far edge to lie on the
    /// plane that `i32` can name, and the piece in play has room on that plane
    /// to step in every direction.
    pub open spec fn wf(&self) -> bool {
        &&& self@.wf()
        &&& self.grid.wf()
        &&& self.grid.num_rows <= i32::MAX - 3
        &&& self.grid.num_cols <= i32::MAX - 3
        &&& self.current_block.wf()
        &&& self.current_block.can_step()
        &&& self.next_block.wf()
        &&& all_blocks(self.blocks@)
    }

    /// Whether the game is in order and in play: the field has room for a
    /// piece to enter, none of its rows is full, and the piece in play lies
    /// on the field. A new game is in play, and whatever is done to a game in
    /// play leaves it so.
    pub open spec fn in_play(&self) -> bool {
        self.wf() && self@.on_field()
    }

    /// A new game on the standard field, its pieces drawn by a generator
    /// seeded with `seed`.
    pub fn new(seed: u64) -> (game: Self)
        ensures
            game.in_play(),
            game@ == GameState::start(seed),
    {
        let mut rng = SplitMixXoshiro256Rng::new(seed);
        let grid = Grid::new();
        let blocks = Game::get_all_blocks();
        let current_block = Game::get_random_block(&mut rng);
        let next_block = Game::get_random_block(&mut rng);
        proof {
            lemma_empty_field_has_no_full_row(grid.num_rows as nat, grid.num_cols as nat);
            lemma_spawn_inside(grid@, current_block.id as int);
        }
        Game { grid, blocks, current_block, next_block, game_over: false, score: 0, rng }
    }

    /// The tiles that show the game, for the caller to draw: the field, the
    /// piece in play, and the next piece in its panel.
    pub fn draw(&self) -> (tiles: Vec<Tile>)
        requires
            self.wf(),
            self.grid.drawable(),
            self.current_block@.drawable(FIELD_CORNER as int, FIELD_CORNER as int),
        ensures
            tiles@ == self@.tiles(),
    {
        let mut tiles = self.grid.draw();
        let mut current = self.current_block.draw(FIELD_CORNER, FIELD_CORNER);
        tiles.append(&mut current);
        let mut next = match self.next_block.id {
            3 => self.next_block.draw(255, 290),
            4 => self.next_block.draw(255, 280),
            _ => self.next_block.draw(270, 270),
        };
        tiles.append(&mut next);
        tiles
    }

    /// Whether a cell of the piece in play lies off the field.
    pub fn is_block_outside(&self) -> (outside: bool)
        requires
            self.grid.wf(),
            self.current_block.wf(),
        ensures
            outside == !piece_inside(self.grid@, self.current_block@),
    {
        let tiles = self.current_block.get_cell_positions();
        let ghost cells = self.current_block@.cells();
        let mut i: usize = 0;
        while i < 4
            invariant
                i <= 4,
                tiles.len() == 4,
                self.grid.wf(),
                cells == self.current_block@.cells(),
                cells_of(tiles@) == cells,
                forall|j: int| 0 <= j < i ==> !cell_outside(self.grid@, #[trigger] cells[j]),
            decreases 4 - i,
        {
            let tile = tiles[i];
            assert(cells[i as int] == cells_of(tiles@)[i as int]);
            if tile.row < 0 || tile.column < 0 {
                return true;
            }
            let row = tile.row as usize;
            let column = tile.column as usize;
            if self.grid.is_cell_outside(row, column) {
                return true;
            }
            i += 1;
        }
        false
    }

    /// Whether every cell of the piece in play fits: a cell above the field
    /// always does, a cell on the field does if it is free, and no other does.
    pub fn block_fits(&self) -> (fits: bool)
        requires
            self.grid.wf(),
            self.current_block.wf(),
        ensures
            fits == piece_fits(self.grid@, self.current_block@),
    {
        let tiles = self.current_block.get_cell_positions();
        let rows = self.grid.rows();
        let columns = self.grid.columns();
        let ghost cells = self.current_block@.cells();
        let mut i: usize = 0;
        while i < 4
            invariant
                i <= 4,
                tiles.len() == 4,
                self.grid.wf(),
                rows == self.grid@.len(),
                columns == width(self.grid@),
                cells == self.current_block@.cells(),
                cells_of(tiles@) == cells,
                forall|j: int| 0 <= j < i ==> cell_fits(self.grid@, #[trigger] cells[j]),
            decreases 4 - i,
        {
            let tile = tiles[i];
            if tile.row >= 0 {
                if tile.row >= rows as i32 || tile.column < 0 || tile.column >= columns as i32 {
                    assert(!cell_fits(self.grid@, cells[i as int]));
                    return false;
                }
                let row = tile.row as usize;
                let column = tile.column as usize;
                if !self.grid.is_cell_empty(row, column) {
                    assert(!cell_fits(self.grid@, cells[i as int]));
                    return false;
                }
            }
            i += 1;
        }
        true
    }

    /// Moves the piece in play one column to the left if it is allowed there.
    pub fn move_block_left(&mut self)
        requires
            old(self).wf(),
        ensures
            final(self).wf(),
            final(self)@ == old(self)@.move_left(),
            final(self).grid.num_rows == old(self).grid.num_rows,
            final(self).grid.num_cols == old(self).grid.num_cols,
            old(self).in_play() ==> final(self).in_play(),
    {
        if !self.game_over {
            self.current_block.move_block(0, -1);
            if self.is_block_outside() || !self.block_fits() {
                self.current_block.move_block(0, 1);
            } else {
                proof {
                    lemma_inside_offsets(self.grid@, self.current_block@);
                }
            }
        }
    }

    /// Moves the piece in play one column to the right if it is allowed there.
    pub fn move_block_right(&mut self)
        requires
            old(self).wf(),
        ensures
            final(self).wf(),
            final(self)@ == old(self)@.move_right(),
            final(self).grid.num_rows == old(self).grid.num_rows,
            final(self).grid.num_cols == old(self).grid.num_cols,
            old(self).in_play() ==> final(self).in_play(),
    {
        if !self.game_over {
            self.current_block.move_block(0, 1);
            if self.is_block_outside() || !self.block_fits() {
                self.current_block.move_block(0, -1);
            } else {
                proof {
                    lemma_inside_offsets(self.grid@, self.current_block@);
                }
            }
        }
    }

    /// Moves the piece in play one row down if it is allowed there, and locks
    /// it if not, unless one of its cells is still above the field. Returns
    /// how many rows were cleared.
    pub fn move_block_down(&mut self) -> (rows_cleared: i32)
        requires
            old(self).wf(),
            old(self)@.can_step_down(),
        ensures
            final(self).wf(),
            final(self)@ == old(self)@.move_down(),
            rows_cleared == if old(self)@.step_down_locks() {
                old(self)@.rows_completed()
            } else {
                0
            },
            final(self).score == old(self).score + line_bonus(rows_cleared as int),
            final(self).grid.num_rows == old(self).grid.num_rows,
            final(self).grid.num_cols == old(self).grid.num_cols,
            old(self).in_play() ==> final(self).in_play(),
    {
        if !self.game_over {
            self.current_block.move_block(1, 0);
            if self.is_block_outside() || !self.block_fits() {
                self.current_block.move_block(-1, 0);
                let tiles = self.current_block.get_cell_positions();
                let ghost cells = self.current_block@.cells();
                let mut above = false;
                let mut i: usize = 0;
                while i < 4
                    invariant
                        i <= 4,
                        tiles.len() == 4,
                        cells_of(tiles@) == cells,
                        above <==> exists|j: int| 0 <= j < i && (#[trigger] cells[j]).row < 0,
                    decreases 4 - i,
                {
                    assert(cells[i as int] == cells_of(tiles@)[i as int]);
                    if tiles[i].row < 0 {
                        above = true;
                    }
                    i += 1;
                }
                if above {
                    return 0;
                }
                return self.lock_block();
            }
            proof {
                lemma_inside_offsets(self.grid@, self.current_block@);
            }
        }
        0
    }

    /// Drops the piece in play as far as it can fall and locks it there.
    /// Returns how many rows were cleared.
    pub fn move_block_up(&mut self) -> (rows_cleared: i32)
        requires
            old(self).wf(),
            old(self)@.can_hard_drop(),
        ensures
            final(self).wf(),
            final(self)@ == old(self)@.hard_drop(),
            rows_cleared == if old(self).game_over {
                0
            } else {
                old(self)@.dropped().rows_completed()
            },
            final(self).score == old(self).score + line_bonus(rows_cleared as int),
            final(self).grid.num_rows == old(self).grid.num_rows,
            final(self).grid.num_cols == old(self).grid.num_cols,
            old(self).in_play() ==> final(self).in_play(),
    {
        if !self.game_over {
            loop
                invariant_except_break
                    old(self).wf(),
                    self.wf(),
                    old(self).in_play() ==> self.in_play(),
                    !self.game_over,
                    self.grid == old(self).grid,
                    self.blocks == old(self).blocks,
                    self.next_block == old(self).next_block,
                    self.score == old(self).score,
                    self.rng == old(self).rng,
                    landing(self.grid@, self.current_block@) == landing(
                        old(self).grid@,
                        old(self).current_block@,
                    ),
                ensures
                    old(self).wf(),
                    self.wf(),
                    old(self).in_play() ==> self.in_play(),
                    !self.game_over,
                    self.grid == old(self).grid,
                    self.blocks == old(self).blocks,
                    self.next_block == old(self).next_block,
                    self.score == old(self).score,
                    self.rng == old(self).rng,
                    self.current_block@ == landing(old(self).grid@, old(self).current_block@),
                decreases self.grid.num_rows - self.current_block.row_offset,
            {
                self.current_block.move_block(1, 0);
                if self.is_block_outside() || !self.block_fits() {
                    self.current_block.move_block(-1, 0);
                    break ;
                }
                proof {
                    lemma_inside_offsets(self.grid@, self.current_block@);
                }
            }
            return self.lock_block();
        }
        0
    }

    /// Turns the piece in play a quarter turn if the turned piece is allowed
    /// where it stands, and leaves it as it was if not. Returns whether the
    /// turn was taken.
    pub fn rotate_block(&mut self) -> (accepted: bool)
        requires
            old(self).wf(),
        ensures
            final(self).wf(),
            final(self)@ == old(self)@.rotate(),
            accepted == old(self)@.rotation_accepted(),
            final(self).grid.num_rows == old(self).grid.num_rows,
            final(self).grid.num_cols == old(self).grid.num_cols,
            old(self).in_play() ==> final(self).in_play(),
    {
        if !self.game_over {
            self.current_block.rotate();
            if self.is_block_outside() || !self.block_fits() {
                self.current_block.undo_rotation();
            } else {
                proof {
                    lemma_inside_offsets(self.grid@, self.current_block@);
                }
                return true;
            }
        }
        false
    }

    /// Locks the piece in play into the field and brings the next piece into
    /// play. The game is over if that piece does not fit. Then a new next
    /// piece is drawn and the full rows are cleared and paid for. Returns how
    /// many rows were cleared.
    pub fn lock_block(&mut self) -> (rows_cleared: i32)
        requires
            old(self).wf(),
            old(self)@.can_lock(),
        ensures
            final(self).wf(),
            final(self)@ == old(self)@.lock(),
            rows_cleared == old(self)@.rows_completed(),
            final(self).score == old(self).score + line_bonus(rows_cleared as int),
            final(self).grid.num_rows == old(self).grid.num_rows,
            final(self).grid.num_cols == old(self).grid.num_cols,
            old(self).in_play() ==> final(self).in_play(),
    {
        let tiles = self.current_block.get_cell_positions();
        self.grid.lock_cells(&tiles, self.current_block.id as i32);
        self.current_block = self.next_block.clone();
        if !self.block_fits() {
            self.game_over = true;
        }
        self.next_block = Game::get_random_block(&mut self.rng);
        let rows_cleared = self.grid.clear_full_rows();
        if rows_cleared > 0 {
            self.update_score(rows_cleared as u32, 0);
        }
        proof {
            if old(self).in_play() {
                lemma_cleared_has_no_full_row(
                    old(self)@.settled(),
                    self.grid.num_rows as nat,
                    self.grid.num_cols as nat,
                );
                lemma_spawn_inside(self.grid@, self.current_block.id as int);
            }
        }
        rows_cleared
    }

    /// Starts anew: frees the field, draws two pieces, sets the score to
    /// nothing, and lets the game run, whether it was over or not.
    pub fn reset(&mut self)
        requires
            old(self).wf(),
        ensures
            final(self).wf(),
            final(self)@ == old(self)@.reset(),
            final(self).grid.num_rows == old(self).grid.num_rows,
            final(self).grid.num_cols == old(self).grid.num_cols,
            old(self).in_play() ==> final(self).in_play(),
    {
        self.grid.init();
        self.blocks = Game::get_all_blocks();
        self.current_block = Game::get_random_block(&mut self.rng);
        self.next_block = Game::get_random_block(&mut self.rng);
        self.game_over = false;
        self.score = 0;
        proof {
            assert(self.grid@ =~= old(self)@.reset().grid);
            if old(self).in_play() {
                lemma_empty_field_has_no_full_row(
                    self.grid.num_rows as nat,
                    self.grid.num_cols as nat,
                );
                lemma_spawn_inside(self.grid@, self.current_block.id as int);
            }
        }
    }

    /// Takes one round of input: the key that was pressed since the last
    /// round, if any, and whether the down key is held.
    ///
    /// A game that is over is reset on any key but the null key. A running
    /// game takes a soft drop step with its point while the down key is held,
    /// and then obeys the key that was pressed.
    pub fn handle_input(&mut self, key_pressed: Option<Key>, key_down: bool) -> (signals: Signals)
        requires
            old(self).wf(),
            old(self)@.can_handle(key_pressed, key_down),
        ensures
            final(self).wf(),
            final(self)@ == old(self)@.handle_input(key_pressed, key_down),
            signals == old(self)@.signals(key_pressed, key_down),
            signals.restart_music ==> final(self).score == 0,
            !signals.restart_music ==> old(self).score <= final(self).score <= old(self).score
                + 1001,
            final(self).grid.num_rows == old(self).grid.num_rows,
            final(self).grid.num_cols == old(self).grid.num_cols,
            old(self).in_play() ==> final(self).in_play(),
    {
        let mut signals = Signals { restart_music: false, rotate_sound: false, clear_sounds: 0 };
        if self.game_over {
            if let Some(key) = key_pressed {
                if key != Key::Null {
                    signals.restart_music = true;
                    self.reset();
                }
            }
            return signals;
        }
        if key_down {
            if self.move_block_down() > 0 {
                signals.clear_sounds += 1;
            }
            self.update_score(0, 1);
        }
        if let Some(key) = key_pressed {
            match key {
                Key::Left => self.move_block_left(),
                Key::Right => self.move_block_right(),
                Key::Up => {
                    if self.move_block_up() > 0 {
                        signals.clear_sounds += 1;
                    }
                },
                Key::R => {
                    signals.rotate_sound = self.rotate_block();
                },
                _ => {},
            }
        }
        signals
    }

    /// Adds the points for `lines_cleared` rows, and `move_down_points` more.
    pub fn update_score(&mut self, lines_cleared: u32, move_down_points: u32)
        requires
            old(self).score + line_bonus(lines_cleared as int) + move_down_points <= u32::MAX,
        ensures
            final(self)@ == old(self)@.update_score(lines_cleared as int, move_down_points as int),
            final(self).grid == old(self).grid,
            final(self).blocks == old(self).blocks,
            final(self).current_block == old(self).current_block,
            final(self).next_block == old(self).next_block,
    {
        let bonus: u32 = match lines_cleared {
            1 => 100,
            2 => 300,
            3 => 500,
            _ => 0,
        };
        self.score += bonus;
        self.score += move_down_points;
    }

    /// Draws a piece: one of the seven, as it enters the game.
    fn get_random_block(rng: &mut SplitMixXoshiro256Rng) -> (block: TetrisBlock)
        ensures
            block.wf(),
            1 <= block.id <= 7,
            block@ == spawn(drawn_id(*old(rng))),
            *final(rng) == old(rng).advanced(),
    {
        let block_types = vec![
            BlockType::IBlock(IBlock::new()),
            BlockType::JBlock(JBlock::new()),
            BlockType::LBlock(LBlock::new()),
            BlockType::OBlock(OBlock::new()),
            BlockType::SBlock(SBlock::new()),
            BlockType::TBlock(TBlock::new()),
            BlockType::ZBlock(ZBlock::new()),
        ];
        let choice = (rng.next_u64() % 7) as usize;
        let block = block_types[choice].to_tetris_block();
        block
    }

    /// The seven pieces as they enter the game, in the order of a draw.
    fn get_all_blocks() -> (blocks: Vec<TetrisBlock>)
        ensures
            all_blocks(blocks@),
    {
        let block_types = vec![
            BlockType::IBlock(IBlock::new()),
            BlockType::JBlock(JBlock::new()),
            BlockType::LBlock(LBlock::new()),
            BlockType::OBlock(OBlock::new()),
            BlockType::SBlock(SBlock::new()),
            BlockType::TBlock(TBlock::new()),
            BlockType::ZBlock(ZBlock::new()),
        ];
        let mut blocks: Vec<TetrisBlock> = Vec::new();
        let mut k: usize = 0;
        while k < 7
            invariant
                k <= 7,
                block_types.len() == 7,
                blocks.len() == k,
                forall|j: int|
                    0 <= j < 7 ==> {
                        &&& (#[trigger] block_types[j]).block().wf()
                        &&& block_types[j].block()@ == spawn(shape_order()[j])
                    },
                forall|j: int|
                    0 <= j < k ==> (#[trigger] blocks[j]).wf() && blocks[j]@ == spawn(
                        shape_order()[j],
                    ),
            decreases 7 - k,
        {
            blocks.push(block_types[k].to_tetris_block());
            k += 1;
        }
        blocks
    }
}

} // verus!
