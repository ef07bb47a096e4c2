use vstd::prelude::*;
use crate::rand::SplitMixXoshiro256Rng;
use crate::stage::grid::{
    cleared, empty_field, full_row_count, is_field, lockable, locked, no_full_row, width,
    FIELD_COLUMNS, FIELD_ROWS,
};
use crate::tetris::blocks::spawn;
use crate::tetris::position::Cell;
use crate::tetris::tetris_block::{lemma_layout_bounds, Piece};
use crate::utils::tile::{Tile, FIELD_CORNER};
use crate::stage::grid::field_tiles;

verus! {

/// Whether the cell lies off the field: above it, left of it, or beyond its
/// last row or column.
pub open spec fn cell_outside(field: Seq<Seq<i32>>, cell: Cell) -> bool {
    cell.row < 0 || cell.column < 0 || cell.row >= field.len() || cell.column >= width(field)
}

/// Whether a piece may have a cell here: above the field always, on the field
/// where the cell is free, and nowhere else.
pub open spec fn cell_fits(field: Seq<Seq<i32>>, cell: Cell) -> bool {
    cell.row < 0 || (cell.row < field.len() && 0 <= cell.column < width(field)
        && field[cell.row][cell.column] == 0)
}

/// Whether every cell of the piece lies on the field.
pub open spec fn piece_inside(field: Seq<Seq<i32>>, piece: Piece) -> bool {
    forall|i: int| 0 <= i < 4 ==> !cell_outside(field, #[trigger] piece.cells()[i])
}

/// Whether every cell of the piece fits.
pub open spec fn piece_fits(field: Seq<Seq<i32>>, piece: Piece) -> bool {
    forall|i: int| 0 <= i < 4 ==> cell_fits(field, #[trigger] piece.cells()[i])
}

/// Whether the piece has a cell above the field.
pub open spec fn piece_above(piece: Piece) -> bool {
    exists|i: int| 0 <= i < 4 && (#[trigger] piece.cells()[i]).row < 0
}

/// Whether the piece may stand where it is: on the field, on free cells only.
pub open spec fn allowed(field: Seq<Seq<i32>>, piece: Piece) -> bool {
    piece_inside(field, piece) && piece_fits(field, piece)
}

/// The points for rows cleared by one lock: a fixed table, in which four rows
/// and more give nothing.
pub open spec fn line_bonus(lines: int) -> int {
    if lines == 1 {
        100
    } else if lines == 2 {
        300
    } else if lines == 3 {
        500
    } else {
        0
    }
}

/// The shapes in the order in which a draw counts them: I, J, L, O, S, T, Z.
pub open spec fn shape_order() -> Seq<int> {
    seq![3, 2, 1, 4, 5, 6, 7]
}

/// The shape that the generator's next draw picks.
pub open spec fn drawn_id(rng: SplitMixXoshiro256Rng) -> int {
    shape_order()[(rng.output() % 7) as int]
}

/// Where the piece comes to rest when it falls straight down: the last place
/// from which one more row down is not allowed.
pub open spec fn landing(field: Seq<Seq<i32>>, piece: Piece) -> Piece
    decreases field.len() - piece.row_offset,
    when 0 <= piece.rotation < 4
{
    if allowed(field, piece.moved(1, 0)) {
        proof {
            lemma_layout_bounds(piece.id, piece.rotation);
            assert(!cell_outside(field, piece.moved(1, 0).cells()[0]));
        }
        landing(field, piece.moved(1, 0))
    } else {
        piece
    }
}

/// Where on the screen the preview shows the cell at row 0 and column 0 of
/// the next piece, so that each shape stands in the middle of its panel.
pub open spec fn preview_corner(id: int) -> (int, int) {
    if id == 3 {
        (255, 290)
    } else if id == 4 {
        (255, 280)
    } else {
        (270, 270)
    }
}

/// A key as the game sees it.
#[derive(Clone, Copy, Debug, PartialEq, Eq, Structural)]
pub enum Key {
    /// No key at all, as some input layers report it.
    Null,
    Left,
    Right,
    Up,
    R,
    /// Any key that the game does not listen to.
    Other,
}

/// What the game asks of the caller after a round of input.
#[derive(Clone, Copy, Debug, PartialEq, Eq, Structural)]
pub struct Signals {
    /// The game started anew: stop the music and start it again.
    pub restart_music: bool,
    /// A turn was taken: play its sound.
    pub rotate_sound: bool,
    /// How many locks of this round cleared rows: play the sound for each.
    pub clear_sounds: u32,
}

/// Whether the key starts a game that is over anew: any key but the null key.
pub open spec fn restarts(key_pressed: Option<Key>) -> bool {
    key_pressed matches Some(key) && key != Key::Null
}

/// The state of a game: the field, the piece in play, the piece that comes
/// next, whether the game is over, the score, and the generator that draws
/// the pieces.
pub struct GameState {
    pub grid: Seq<Seq<i32>>,
    pub current: Piece,
    pub next: Piece,
    pub game_over: bool,
    pub score: int,
    pub rng: SplitMixXoshiro256Rng,
}

impl GameState {
    /// The game that `seed` starts: a free standard field, two pieces drawn,
    /// no points.
    pub open spec fn start(seed: u64) -> GameState {
        let rng = SplitMixXoshiro256Rng::seeded(seed);
        GameState {
            grid: empty_field(FIELD_ROWS as nat, FIELD_COLUMNS as nat),
            current: spawn(drawn_id(rng)),
            next: spawn(drawn_id(rng.advanced())),
            game_over: false,
            score: 0,
            rng: rng.advanced().advanced(),
        }
    }

    /// The state with `candidate` in play if it is allowed there, and the
    /// state unchanged if not.
    pub open spec fn try_place(self, candidate: Piece) -> GameState {
        if allowed(self.grid, candidate) {
            GameState { current: candidate, ..self }
        } else {
            self
        }
    }

    /// The state after a step to the left. A game that is over does not move.
    pub open spec fn move_left(self) -> GameState {
        if self.game_over {
            self
        } else {
            self.try_place(self.current.moved(0, -1))
        }
    }

    /// The state after a step to the right. A game that is over does not move.
    pub open spec fn move_right(self) -> GameState {
        if self.game_over {
            self
        } else {
            self.try_place(self.current.moved(0, 1))
        }
    }

    /// Whether a turn of the piece in play is taken.
    pub open spec fn rotation_accepted(self) -> bool {
        !self.game_over && allowed(self.grid, self.current.rotated())
    }

    /// The state after a turn of the piece in play, which stays as it was
    /// where the turned piece is not allowed.
    pub open spec fn rotate(self) -> GameState {
        if self.game_over {
            self
        } else {
            self.try_place(self.current.rotated())
        }
    }

    /// The field with the piece in play locked into it, before rows are cleared.
    pub open spec fn settled(self) -> Seq<Seq<i32>> {
        locked(self.grid, self.current.cells(), self.current.id as i32)
    }

    /// How many rows a lock of the piece in play completes.
    pub open spec fn rows_completed(self) -> int {
        full_row_count(self.settled()) as int
    }

    /// The state after the piece in play is locked: its cells are written to
    /// the field, the next piece comes into play, the game is over if that
    /// piece does not fit, a new next piece is drawn, and then, whether the
    /// game is over or not, the full rows are cleared and paid for.
    pub open spec fn lock(self) -> GameState {
        GameState {
            grid: cleared(self.settled()),
            current: self.next,
            next: spawn(drawn_id(self.rng)),
            game_over: self.game_over || !piece_fits(self.settled(), self.next),
            score: self.score + line_bonus(self.rows_completed()),
            rng: self.rng.advanced(),
        }
    }

    /// Whether a step down ends in a lock: the game runs, the piece cannot go
    /// one row down, and none of its cells is above the field.
    pub open spec fn step_down_locks(self) -> bool {
        !self.game_over && !allowed(self.grid, self.current.moved(1, 0)) && !piece_above(
            self.current,
        )
    }

    /// The state after a step down: the piece goes one row down if it is
    /// allowed there; if not, it is locked, unless one of its cells is still
    /// above the field, in which case nothing happens.
    pub open spec fn move_down(self) -> GameState {
        if self.game_over {
            self
        } else if allowed(self.grid, self.current.moved(1, 0)) {
            GameState { current: self.current.moved(1, 0), ..self }
        } else if piece_above(self.current) {
            self
        } else {
            self.lock()
        }
    }

    /// The state with the piece in play fallen as far as it can.
    pub open spec fn dropped(self) -> GameState {
        GameState { current: landing(self.grid, self.current), ..self }
    }

    /// The state after a hard drop: the piece falls as far as it can and is
    /// locked there, whatever the distance.
    pub open spec fn hard_drop(self) -> GameState {
        if self.game_over {
            self
        } else {
            self.dropped().lock()
        }
    }

    /// The state after points are added: those for `lines_cleared` rows and
    /// `move_down_points` more.
    pub open spec fn update_score(self, lines_cleared: int, move_down_points: int) -> GameState {
        GameState {
            score: self.score + line_bonus(lines_cleared) + move_down_points,
            ..self
        }
    }

    /// The state after a reset: a free field, two pieces drawn, no points,
    /// and the game running, whether it was over or not.
    pub open spec fn reset(self) -> GameState {
        GameState {
            grid: empty_field(self.grid.len(), width(self.grid)),
            current: spawn(drawn_id(self.rng)),
            next: spawn(drawn_id(self.rng.advanced())),
            game_over: false,
            score: 0,
            rng: self.rng.advanced().advanced(),
        }
    }

    /// The state after one step of a held soft drop: a step down, and one
    /// point for it whether the piece moved or not.
    pub open spec fn soft_drop(self) -> GameState {
        self.move_down().update_score(0, 1)
    }

    /// The state after the key that was pressed is obeyed: left and right
    /// move the piece, up drops it, R turns it, and every other key, or none,
    /// does nothing.
    pub open spec fn press(self, key_pressed: Option<Key>) -> GameState {
        match key_pressed {
            Some(Key::Left) => self.move_left(),
            Some(Key::Right) => self.move_right(),
            Some(Key::Up) => self.hard_drop(),
            Some(Key::R) => self.rotate(),
            _ => self,
        }
    }

    /// The state after one round of input. A game that is over is reset on
    /// any key but the null key, and does nothing else. A running game first
    /// takes a soft drop step if the down key is held, and then obeys the key
    /// that was pressed.
    pub open spec fn handle_input(self, key_pressed: Option<Key>, key_down: bool) -> GameState {
        if self.game_over {
            if restarts(key_pressed) {
                self.reset()
            } else {
                self
            }
        } else if key_down {
            self.soft_drop().press(key_pressed)
        } else {
            self.press(key_pressed)
        }
    }

    /// What one round of input asks of the caller: to start the music anew,
    /// to play the sound of a turn, and to play the sound of cleared rows,
    /// once for each lock of the round that cleared any.
    pub open spec fn signals(self, key_pressed: Option<Key>, key_down: bool) -> Signals {
        if self.game_over {
            Signals { restart_music: restarts(key_pressed), rotate_sound: false, clear_sounds: 0 }
        } else {
            let held = if key_down {
                self.soft_drop()
            } else {
                self
            };
            let first: u32 = if key_down && self.step_down_locks() && self.rows_completed() > 0 {
                1
            } else {
                0
            };
            let second: u32 = if key_pressed == Some(Key::Up) && !held.game_over
                && held.dropped().rows_completed() > 0 {
                1
            } else {
                0
            };
            Signals {
                restart_music: false,
                rotate_sound: key_pressed == Some(Key::R) && held.rotation_accepted(),
                clear_sounds: (first + second) as u32,
            }
        }
    }

    /// The state after `rounds` rounds of input in which the down key is held
    /// and no key is pressed.
    pub open spec fn held_down(self, rounds: nat) -> GameState
        decreases rounds,
    {
        if rounds == 0 {
            self
        } else {
            self.handle_input(None, true).held_down((rounds - 1) as nat)
        }
    }

    /// Whether the piece in play can fall `rounds` rows, one after the other:
    /// it is allowed in each of the `rounds` places below it.
    pub open spec fn falls_freely(self, rounds: nat) -> bool {
        forall|j: int|
            1 <= j <= rounds ==> allowed(self.grid, #[trigger] self.current.moved(j, 0))
    }

    /// Whether one of `rounds` rounds with the down key held ends in a lock.
    pub open spec fn locks_within(self, rounds: nat) -> bool
        decreases rounds,
    {
        rounds > 0 && (self.step_down_locks() || self.handle_input(None, true).locks_within(
            (rounds - 1) as nat,
        ))
    }

    /// The tiles that show the game: those of the field, then those of the
    /// piece in play on the field, then those of the next piece in its panel.
    pub open spec fn tiles(self) -> Seq<Tile> {
        field_tiles(self.grid) + self.current.tiles(FIELD_CORNER as int, FIELD_CORNER as int)
            + self.next.tiles(preview_corner(self.next.id).0, preview_corner(self.next.id).1)
    }

    /// Whether the state is that of a game: the field is a matrix of valid
    /// cells, the piece in play is one of the seven in one of its four
    /// states, the next piece is one of the seven as it enters the game, and
    /// the score is not negative.
    pub open spec fn wf(self) -> bool {
        &&& is_field(self.grid, self.grid.len(), width(self.grid))
        &&& 1 <= self.current.id <= 7
        &&& 0 <= self.current.rotation < 4
        &&& 1 <= self.next.id <= 7
        &&& self.next == spawn(self.next.id)
        &&& 0 <= self.score
    }

    /// Whether the game is in play as every game is that began at
    /// [`GameState::start`]: the field has room for a piece to enter, none of
    /// its rows is full, and the piece in play lies on the field.
    pub open spec fn on_field(self) -> bool {
        &&& self.wf()
        &&& self.grid.len() >= 2
        &&& width(self.grid) >= 7
        &&& no_full_row(self.grid)
        &&& piece_inside(self.grid, self.current)
    }

    /// Whether the piece in play can be locked: each of its cells that has
    /// neither a negative row nor a negative column lies on the field, and
    /// the score after the lock is one that `u32` holds.
    pub open spec fn can_lock(self) -> bool {
        lockable(self.grid, self.current.cells()) && self.lock().score <= u32::MAX
    }

    /// Whether a step down can be taken: where it ends in a lock, the piece
    /// can be locked.
    pub open spec fn can_step_down(self) -> bool {
        self.step_down_locks() ==> self.can_lock()
    }

    /// Whether a hard drop can be taken: in a running game, the piece can be
    /// locked where it lands. A piece that falls in a game in play lands on
    /// the field, where it can be locked.
    pub open spec fn can_hard_drop(self) -> bool {
        !self.game_over ==> {
            &&& self.on_field() || lockable(self.grid, self.dropped().current.cells())
            &&& self.dropped().lock().score <= u32::MAX
        }
    }

    /// Whether a round of input can be taken: each step of it can, and the
    /// score stays one that `u32` holds. A game in play whose score leaves
    /// room for two locks and a point can take every round.
    pub open spec fn can_handle(self, key_pressed: Option<Key>, key_down: bool) -> bool {
        ||| self.game_over
        ||| self.on_field() && self.score + 1001 <= u32::MAX
        ||| if key_down {
            &&& self.can_step_down()
            &&& self.soft_drop().score <= u32::MAX
            &&& key_pressed == Some(Key::Up) ==> self.soft_drop().can_hard_drop()
        } else {
            key_pressed == Some(Key::Up) ==> self.can_hard_drop()
        }
    }
}

} // verus!
