use vstd::prelude::*;
use super::state::{
    allowed, cell_outside, drawn_id, landing, line_bonus, piece_inside, GameState, Key,
};
use crate::stage::grid::{
    cleared, empty_field, is_field, lemma_cleared_has_no_full_row, lemma_cleared_is_field,
    lemma_empty_field_has_no_full_row, lemma_full_rows_counted, lemma_locked_is_field, lockable,
    locked, row_full, width,
};
use crate::tetris::blocks::spawn;
use crate::tetris::position::Cell;
use crate::tetris::tetris_block::{lemma_cells_differ, lemma_layout_bounds, Piece};
use crate::utils::tile::{CELL_SIZE, FIELD_CORNER};

verus! {

/// A piece that enters a field of at least two rows and seven columns lies on it.
pub proof fn lemma_spawn_inside(field: Seq<Seq<i32>>, id: int)
    requires
        field.len() >= 2,
        width(field) >= 7,
        1 <= id <= 7,
    ensures
        piece_inside(field, spawn(id)),
{
}

/// A piece that lies on the field has its box within three cells of it.
pub proof fn lemma_inside_offsets(field: Seq<Seq<i32>>, piece: Piece)
    requires
        0 <= piece.rotation < 4,
        piece_inside(field, piece),
    ensures
        -3 <= piece.row_offset < field.len(),
        -3 <= piece.column_offset < width(field),
{
    lemma_layout_bounds(piece.id, piece.rotation);
    assert(!cell_outside(field, piece.cells()[0]));
}

/// Locking a piece that lies on the field writes the number of its shape
/// into its four cells, which are four different cells of the field, and
/// leaves every other cell as it was.
pub proof fn lemma_lock_transfers(field: Seq<Seq<i32>>, piece: Piece)
    requires
        is_field(field, field.len(), width(field)),
        1 <= piece.id <= 7,
        0 <= piece.rotation < 4,
        piece_inside(field, piece),
    ensures
        piece.cells().len() == 4,
        piece.cells().no_duplicates(),
        is_field(locked(field, piece.cells(), piece.id as i32), field.len(), width(field)),
        forall|i: int|
            0 <= i < 4 ==> {
                let cell = #[trigger] piece.cells()[i];
                &&& 0 <= cell.row < field.len()
                &&& 0 <= cell.column < width(field)
                &&& locked(field, piece.cells(), piece.id as i32)[cell.row][cell.column]
                    == piece.id
            },
        forall|r: int, c: int|
            0 <= r < field.len() && 0 <= c < width(field) && !piece.cells().contains(
                Cell { row: r, column: c },
            ) ==> #[trigger] locked(field, piece.cells(), piece.id as i32)[r][c] == field[r][c],
{
    lemma_cells_differ(piece);
}

/// A piece that lies on a field whose cells can all be placed on the screen
/// can be placed on the screen with the field.
pub proof fn lemma_piece_on_field_drawable(field: Seq<Seq<i32>>, piece: Piece)
    requires
        piece_inside(field, piece),
        field.len() * CELL_SIZE + FIELD_CORNER <= i32::MAX,
        width(field) * CELL_SIZE + FIELD_CORNER <= i32::MAX,
    ensures
        piece.drawable(FIELD_CORNER as int, FIELD_CORNER as int),
{
    assert forall|i: int| 0 <= i < 4 implies !cell_outside(field, #[trigger] piece.cells()[i]) by {
    }
}

/// A lock clears the full rows of the field into which the piece is locked
/// and pays for them by the table, whether it ends the game or not: 100 for
/// one row, 300 for two, 500 for three, and nothing for any other number.
pub proof fn lemma_lock_pays(state: GameState)
    ensures
        state.lock().grid == cleared(state.settled()),
        state.lock().score == state.score + line_bonus(state.rows_completed()),
        state.rows_completed() == 1 ==> state.lock().score == state.score + 100,
        state.rows_completed() == 2 ==> state.lock().score == state.score + 300,
        state.rows_completed() == 3 ==> state.lock().score == state.score + 500,
        state.rows_completed() == 0 || state.rows_completed() >= 4 ==> state.lock().score
            == state.score,
{
}

/// In a running game, rounds of input with the down key held pay one point
/// each as long as none of them ends in a lock, and the game runs on.
pub proof fn lemma_soft_drop_pays(state: GameState, rounds: nat)
    requires
        !state.game_over,
        !state.locks_within(rounds),
    ensures
        state.held_down(rounds).score == state.score + rounds,
        !state.held_down(rounds).game_over,
    decreases rounds,
{
    if rounds > 0 {
        lemma_soft_drop_pays(state.handle_input(None, true), (rounds - 1) as nat);
    }
}

/// In a running game, as many rounds of input with the down key held as the
/// piece can fall rows pay one point each and bring the piece one row down
/// each. None of them ends in a lock, and nothing else changes: not the
/// column or the state of the piece, not the field, not the next piece, and
/// the game runs on.
pub proof fn lemma_soft_drop_falls_and_pays(state: GameState, rounds: nat)
    requires
        !state.game_over,
        state.falls_freely(rounds),
    ensures
        !state.locks_within(rounds),
        state.held_down(rounds) == (GameState {
            current: state.current.moved(rounds as int, 0),
            score: state.score + rounds,
            ..state
        }),
    decreases rounds,
{
    if rounds > 0 {
        let after = state.handle_input(None, true);
        assert(allowed(state.grid, state.current.moved(1, 0)));
        assert forall|j: int| 1 <= j <= rounds - 1 implies allowed(
            after.grid,
            #[trigger] after.current.moved(j, 0),
        ) by {
            assert(after.current.moved(j, 0) == state.current.moved(j + 1, 0));
        }
        lemma_soft_drop_falls_and_pays(after, (rounds - 1) as nat);
        assert(after.current.moved(rounds - 1, 0) == state.current.moved(rounds as int, 0));
    }
}

/// A round of input in a running game asks for the sound of cleared rows
/// once for each of its locks that cleared a row, and for no other reason:
/// once for a step down that locks and clears, once for a hard drop that
/// clears, and not at all in a round without a lock.
pub proof fn lemma_clear_sound_follows_cleared_rows(state: GameState, key_pressed: Option<Key>)
    requires
        !state.game_over,
    ensures
        state.signals(None, true).clear_sounds == if state.step_down_locks()
            && state.rows_completed() > 0 {
            1int
        } else {
            0int
        },
        state.signals(Some(Key::Up), false).clear_sounds == if state.dropped().rows_completed()
            > 0 {
            1int
        } else {
            0int
        },
        key_pressed != Some(Key::Up) ==> state.signals(key_pressed, false).clear_sounds == 0,
        !state.signals(key_pressed, false).restart_music,
{
}

/// A reset starts the game anew from any state, also from a game that is
/// over: the field is free and keeps its sides, the score is nothing, and
/// the game runs.
pub proof fn lemma_reset_starts_anew(state: GameState)
    ensures
        !state.reset().game_over,
        state.reset().score == 0,
        state.reset().grid == empty_field(state.grid.len(), width(state.grid)),
        state.reset().current == spawn(drawn_id(state.rng)),
        state.reset().next == spawn(drawn_id(state.rng.advanced())),
        state.game_over ==> state.handle_input(Some(Key::Other), false) == state.reset(),
{
}

/// A game that is over does not move: no step, drop, turn or soft drop
/// changes it. Only a reset lets it run again, by a call or by a key press.
pub proof fn lemma_game_over_stands_still(state: GameState, key_down: bool)
    requires
        state.game_over,
    ensures
        state.move_left() == state,
        state.move_right() == state,
        state.move_down() == state,
        state.hard_drop() == state,
        state.rotate() == state,
        !state.rotation_accepted(),
        state.handle_input(None, key_down) == state,
        state.handle_input(Some(Key::Null), key_down) == state,
{
}

/// A piece that falls from a place on the field lands on the field, in the
/// column and the state in which it fell, not above where it began, and
/// where one more row down is not allowed.
pub proof fn lemma_landing_on_field(field: Seq<Seq<i32>>, piece: Piece)
    requires
        0 <= piece.rotation < 4,
        piece_inside(field, piece),
    ensures
        piece_inside(field, landing(field, piece)),
        landing(field, piece) == piece.moved(
            landing(field, piece).row_offset - piece.row_offset,
            0,
        ),
        landing(field, piece).row_offset >= piece.row_offset,
        !allowed(field, landing(field, piece).moved(1, 0)),
    decreases field.len() - piece.row_offset,
{
    if allowed(field, piece.moved(1, 0)) {
        lemma_inside_offsets(field, piece.moved(1, 0));
        lemma_landing_on_field(field, piece.moved(1, 0));
    }
}

/// A piece that lies on the field can be locked into it.
pub proof fn lemma_inside_lockable(field: Seq<Seq<i32>>, rows: nat, columns: nat, piece: Piece)
    requires
        is_field(field, rows, columns),
        piece_inside(field, piece),
    ensures
        lockable(field, piece.cells()),
{
}

/// A lock keeps the state that of a game, with the field's sides as they
/// were. On a field with room for a piece to enter, the game is in play
/// after it.
pub proof fn lemma_lock_keeps_game(state: GameState)
    requires
        state.wf(),
    ensures
        state.lock().wf(),
        state.lock().grid.len() == state.grid.len(),
        width(state.lock().grid) == width(state.grid),
        state.grid.len() >= 2 && width(state.grid) >= 7 ==> state.lock().on_field(),
{
    lemma_locked_is_field(
        state.grid,
        state.grid.len(),
        width(state.grid),
        state.current.cells(),
        state.current.id as i32,
    );
    lemma_cleared_is_field(state.settled(), state.grid.len(), width(state.grid));
    if state.grid.len() >= 2 && width(state.grid) >= 7 {
        lemma_cleared_has_no_full_row(state.settled(), state.grid.len(), width(state.grid));
        lemma_spawn_inside(state.lock().grid, state.next.id);
    }
}

/// Whatever is done to a game in play leaves it in play.
pub proof fn lemma_steps_keep_in_play(state: GameState, key_pressed: Option<Key>, key_down: bool)
    requires
        state.on_field(),
    ensures
        state.move_left().on_field(),
        state.move_right().on_field(),
        state.rotate().on_field(),
        state.lock().on_field(),
        state.move_down().on_field(),
        state.dropped().on_field(),
        state.hard_drop().on_field(),
        state.soft_drop().on_field(),
        state.reset().on_field(),
        state.press(key_pressed).on_field(),
        state.handle_input(key_pressed, key_down).on_field(),
{
    lemma_lock_keeps_game(state);
    lemma_landing_on_field(state.grid, state.current);
    lemma_lock_keeps_game(state.dropped());
    lemma_reset_in_play(state);
    let held = state.soft_drop();
    lemma_lock_keeps_game(held);
    lemma_landing_on_field(held.grid, held.current);
    lemma_lock_keeps_game(held.dropped());
}

/// A reset of a game in play leaves it in play.
proof fn lemma_reset_in_play(state: GameState)
    requires
        state.on_field(),
    ensures
        state.reset().on_field(),
{
    let after = state.reset();
    lemma_empty_field_has_no_full_row(state.grid.len(), width(state.grid));
    lemma_spawn_inside(after.grid, after.current.id);
}

/// A game in play whose score leaves room for two locks and a point can
/// take every step and every round of input.
pub proof fn lemma_in_play_can_step(state: GameState, key_pressed: Option<Key>, key_down: bool)
    requires
        state.on_field(),
        state.score + 1001 <= u32::MAX,
    ensures
        state.can_lock(),
        state.can_step_down(),
        state.can_hard_drop(),
        state.can_handle(key_pressed, key_down),
{
    lemma_inside_lockable(state.grid, state.grid.len(), width(state.grid), state.current);
    lemma_landing_on_field(state.grid, state.current);
    lemma_inside_lockable(
        state.grid,
        state.grid.len(),
        width(state.grid),
        landing(state.grid, state.current),
    );
    lemma_steps_keep_in_play(state, key_pressed, key_down);
    let held = state.soft_drop();
    lemma_landing_on_field(held.grid, held.current);
    lemma_inside_lockable(
        held.grid,
        held.grid.len(),
        width(held.grid),
        landing(held.grid, held.current),
    );
}

/// In a game in play, a lock completes four rows at most: a row that it
/// completes holds a cell of the piece, and the piece has four cells.
pub proof fn lemma_lock_completes_four_rows_at_most(state: GameState)
    requires
        state.on_field(),
    ensures
        0 <= state.rows_completed() <= 4,
{
    let cells = state.current.cells();
    let settled = state.settled();
    let numbers = Set::<int>::empty().insert(cells[0].row).insert(cells[1].row).insert(
        cells[2].row,
    ).insert(cells[3].row);
    assert forall|r: int|
        0 <= r < settled.len() && row_full(#[trigger] settled[r]) implies numbers.contains(r) by {
        let c = choose|c: int| 0 <= c < state.grid[r].len() && state.grid[r][c] == 0;
        assert(settled[r][c] != 0);
    }
    lemma_full_rows_counted(settled, numbers);
}

/// The score never falls but by a reset: steps to the side and turns leave
/// it as it is, and every other step of a game leaves it as it is or raises
/// it.
pub proof fn lemma_score_never_falls(state: GameState, key_pressed: Option<Key>, key_down: bool)
    ensures
        state.move_left().score == state.score,
        state.move_right().score == state.score,
        state.rotate().score == state.score,
        state.lock().score >= state.score,
        state.move_down().score >= state.score,
        state.hard_drop().score >= state.score,
        state.soft_drop().score > state.score,
        state.press(key_pressed).score >= state.score,
        !state.game_over ==> state.handle_input(key_pressed, key_down).score >= state.score,
        state.reset().score == 0,
{
}

/// A hard drop of a piece that cannot fall a single row is one lock where the
/// piece stands, and no more.
pub proof fn lemma_hard_drop_of_resting_piece(state: GameState)
    requires
        !state.game_over,
        0 <= state.current.rotation < 4,
        !allowed(state.grid, state.current.moved(1, 0)),
    ensures
        state.dropped() == state,
        state.hard_drop() == state.lock(),
{
}

} // verus!
