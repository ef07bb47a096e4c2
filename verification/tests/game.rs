use tetris_engine::game::game::Game;
use tetris_engine::game::state::{Key, Signals};
use tetris_engine::rand::SplitMixXoshiro256Rng;
use tetris_engine::tetris::blocks::{IBlock, LBlock, OBlock, TBlock, ZBlock};
use tetris_engine::tetris::position::Position;
use tetris_engine::tetris::tetris_block::TetrisBlock;
use tetris_engine::utils::colors::get_cell_colors;
use tetris_engine::utils::tile::Tile;

// The generator seeded with 1 draws the shapes 4, 7, 5, 7, 2: a game that it
// starts has the square in play and the Z shape next.
fn game_with(current: TetrisBlock) -> Game {
    let mut game = Game::new(1);
    game.current_block = current;
    game
}

fn placed(
    mut block: TetrisBlock,
    rotation: usize,
    row_offset: i32,
    column_offset: i32,
) -> TetrisBlock {
    block.rotation_state = rotation;
    block.row_offset = row_offset;
    block.column_offset = column_offset;
    block
}

fn free_field() -> Vec<Vec<i32>> {
    vec![vec![0; 10]; 20]
}

fn fill_row_except(field: &mut Vec<Vec<i32>>, row: usize, free: &[usize]) {
    for column in 0..10 {
        if !free.contains(&column) {
            field[row][column] = 1;
        }
    }
}

fn place_of(block: &TetrisBlock) -> (usize, usize, i32, i32) {
    (block.id, block.rotation_state, block.row_offset, block.column_offset)
}

const QUIET: Signals = Signals { restart_music: false, rotate_sound: false, clear_sounds: 0 };

#[test]
fn new_game_has_a_free_field_two_pieces_and_no_points() {
    let game = Game::new(7);
    assert_eq!(game.grid.grid, free_field());
    assert_eq!((game.grid.num_rows, game.grid.num_cols), (20, 10));
    assert!(!game.game_over);
    assert_eq!(game.score, 0);
    assert_eq!(place_of(&game.current_block), (3, 0, -1, 3));
    assert_eq!(place_of(&game.next_block), (7, 0, 0, 3));
    let mut rng = SplitMixXoshiro256Rng::new(7);
    rng.next_u64();
    rng.next_u64();
    assert_eq!(game.rng, rng);
}

#[test]
fn new_game_holds_the_seven_pieces_in_the_order_of_a_draw() {
    let game = Game::new(3);
    let ids: Vec<usize> = game.blocks.iter().map(|block| block.id).collect();
    assert_eq!(ids, vec![3, 2, 1, 4, 5, 6, 7]);
    for block in &game.blocks {
        assert_eq!(block.rotation_state, 0);
        assert_eq!(block.cells.len(), 4);
    }
}

#[test]
fn pieces_are_drawn_by_the_seed() {
    let drawn = |seed: u64| {
        let game = Game::new(seed);
        (game.current_block.id, game.next_block.id)
    };
    assert_eq!(drawn(0), (5, 6));
    assert_eq!(drawn(1), (4, 7));
    assert_eq!(drawn(42), (1, 2));
    assert_eq!(drawn(2024), (6, 6));
}

#[test]
fn same_seed_and_same_input_give_the_same_game() {
    let mut first = Game::new(99);
    let mut second = Game::new(99);
    let keys =
        [Some(Key::Left), Some(Key::R), None, Some(Key::Up), Some(Key::Right), Some(Key::Up)];
    for round in 0..60 {
        let key = keys[round % keys.len()];
        let held = round % 3 == 0;
        assert_eq!(first.handle_input(key, held), second.handle_input(key, held));
        assert_eq!(first.grid.grid, second.grid.grid);
        assert_eq!(place_of(&first.current_block), place_of(&second.current_block));
        assert_eq!(place_of(&first.next_block), place_of(&second.next_block));
        assert_eq!(first.score, second.score);
        assert_eq!(first.game_over, second.game_over);
        assert_eq!(first.rng, second.rng);
    }
}

#[test]
fn square_fits_on_the_free_field_where_it_enters() {
    let game = game_with(OBlock::new().block);
    assert!(game.block_fits());
    assert!(!game.is_block_outside());
}

#[test]
fn every_shape_fits_on_the_free_field_where_it_enters() {
    for block in Game::new(5).blocks {
        let game = game_with(block);
        assert!(game.block_fits());
        assert!(!game.is_block_outside());
    }
}

#[test]
fn a_cell_above_the_field_is_outside_and_fits() {
    let game = game_with(placed(IBlock::new().block, 1, -1, 3));
    assert!(game.is_block_outside());
    assert!(game.block_fits());
}

#[test]
fn a_cell_above_the_field_fits_whatever_its_column() {
    let game = game_with(placed(OBlock::new().block, 0, -2, -5));
    assert!(game.block_fits());
    assert!(game.is_block_outside());
    let game = game_with(placed(OBlock::new().block, 0, -1, -5));
    assert!(!game.block_fits());
}

#[test]
fn a_cell_beyond_an_edge_is_outside_and_does_not_fit() {
    let below = game_with(placed(OBlock::new().block, 0, 19, 4));
    assert!(below.is_block_outside());
    assert!(!below.block_fits());
    let left = game_with(placed(OBlock::new().block, 0, 5, -1));
    assert!(left.is_block_outside());
    assert!(!left.block_fits());
    let right = game_with(placed(OBlock::new().block, 0, 5, 9));
    assert!(right.is_block_outside());
    assert!(!right.block_fits());
    let inside = game_with(placed(OBlock::new().block, 0, 18, 8));
    assert!(!inside.is_block_outside());
    assert!(inside.block_fits());
}

#[test]
fn a_piece_on_a_taken_cell_does_not_fit_but_is_not_outside() {
    let mut game = game_with(OBlock::new().block);
    game.grid.grid[1][5] = 3;
    assert!(!game.block_fits());
    assert!(!game.is_block_outside());
}

#[test]
fn move_left_stops_at_the_wall() {
    let mut game = game_with(LBlock::new().block);
    for expected in [2, 1, 0] {
        game.move_block_left();
        assert_eq!(game.current_block.column_offset, expected);
    }
    let leftmost = game.current_block.get_cell_positions().iter().map(|p| p.column).min();
    assert_eq!(leftmost, Some(0));
    let before = game.current_block.get_cell_positions();
    game.move_block_left();
    assert_eq!(place_of(&game.current_block), (1, 0, 0, 0));
    assert_eq!(game.current_block.get_cell_positions(), before);
    assert_eq!(game.grid.grid, free_field());
    assert_eq!(game.score, 0);
}

#[test]
fn move_right_stops_at_the_wall() {
    let mut game = game_with(ZBlock::new().block);
    for expected in [4, 5, 6, 7] {
        game.move_block_right();
        assert_eq!(game.current_block.column_offset, expected);
    }
    game.move_block_right();
    assert_eq!(place_of(&game.current_block), (7, 0, 0, 7));
}

#[test]
fn a_move_onto_a_taken_cell_is_undone() {
    let mut game = game_with(OBlock::new().block);
    game.grid.grid[1][3] = 2;
    game.grid.grid[0][6] = 2;
    game.move_block_left();
    assert_eq!(place_of(&game.current_block), (4, 0, 0, 4));
    game.move_block_right();
    assert_eq!(place_of(&game.current_block), (4, 0, 0, 4));
}

#[test]
fn move_down_goes_one_row_and_gives_no_point() {
    let mut game = game_with(TBlock::new().block);
    assert_eq!(game.move_block_down(), 0);
    assert_eq!(place_of(&game.current_block), (6, 0, 1, 3));
    assert_eq!(game.score, 0);
    assert_eq!(game.grid.grid, free_field());
    assert_eq!(game.next_block.id, 7);
}

#[test]
fn move_down_at_the_bottom_locks_the_piece() {
    let mut game = game_with(placed(TBlock::new().block, 0, 18, 3));
    assert_eq!(game.move_block_down(), 0);
    let mut expected = free_field();
    expected[18][4] = 6;
    expected[19][3] = 6;
    expected[19][4] = 6;
    expected[19][5] = 6;
    assert_eq!(game.grid.grid, expected);
    assert_eq!(place_of(&game.current_block), (7, 0, 0, 3));
    assert_eq!(place_of(&game.next_block), (5, 0, 0, 3));
    assert!(!game.game_over);
    assert_eq!(game.score, 0);
}

#[test]
fn move_down_onto_a_taken_cell_locks_the_piece() {
    let mut game = game_with(placed(OBlock::new().block, 0, 7, 4));
    game.grid.grid[9][5] = 1;
    assert_eq!(game.move_block_down(), 0);
    let mut expected = free_field();
    expected[9][5] = 1;
    expected[7][4] = 4;
    expected[7][5] = 4;
    expected[8][4] = 4;
    expected[8][5] = 4;
    assert_eq!(game.grid.grid, expected);
    assert_eq!(game.current_block.id, 7);
}

#[test]
fn a_blocked_piece_with_a_cell_above_the_field_is_not_locked() {
    let mut game = game_with(placed(IBlock::new().block, 1, -1, 3));
    game.grid.grid[3][5] = 1;
    let mut expected = free_field();
    expected[3][5] = 1;
    assert_eq!(game.move_block_down(), 0);
    assert_eq!(game.grid.grid, expected);
    assert_eq!(place_of(&game.current_block), (3, 1, -1, 3));
    assert_eq!(game.next_block.id, 7);
    assert!(!game.game_over);
}

#[test]
fn completing_the_bottom_row_clears_it_and_sinks_the_rows_above() {
    let mut game = game_with(placed(IBlock::new().block, 1, 16, 3));
    fill_row_except(&mut game.grid.grid, 19, &[5]);
    game.grid.grid[10][0] = 2;
    assert_eq!(game.move_block_down(), 1);
    let mut expected = free_field();
    expected[17][5] = 3;
    expected[18][5] = 3;
    expected[19][5] = 3;
    expected[11][0] = 2;
    assert_eq!(game.grid.grid, expected);
    assert_eq!(game.score, 100);
    assert!(!game.game_over);
}

#[test]
fn a_piece_that_lies_in_the_bottom_row_leaves_it_free() {
    let mut game = game_with(placed(IBlock::new().block, 0, 18, 3));
    fill_row_except(&mut game.grid.grid, 19, &[3, 4, 5, 6]);
    assert_eq!(game.lock_block(), 1);
    assert_eq!(game.grid.grid, free_field());
    assert_eq!(game.score, 100);
}

#[test]
fn lock_pays_by_the_table() {
    let pay = |full_rows: &[usize]| {
        let mut game = game_with(placed(IBlock::new().block, 1, 16, 3));
        for &row in full_rows {
            fill_row_except(&mut game.grid.grid, row, &[5]);
        }
        game.score = 40;
        let rows = game.lock_block();
        (rows, game.score)
    };
    assert_eq!(pay(&[]), (0, 40));
    assert_eq!(pay(&[19]), (1, 140));
    assert_eq!(pay(&[18, 19]), (2, 340));
    assert_eq!(pay(&[17, 18, 19]), (3, 540));
    assert_eq!(pay(&[16, 17, 18, 19]), (4, 40));
}

#[test]
fn three_cleared_rows_leave_the_fourth_cell_on_the_bottom() {
    let mut game = game_with(placed(IBlock::new().block, 1, 16, 3));
    for row in 17..20 {
        fill_row_except(&mut game.grid.grid, row, &[5]);
    }
    assert_eq!(game.lock_block(), 3);
    let mut expected = free_field();
    expected[19][5] = 3;
    assert_eq!(game.grid.grid, expected);
}

#[test]
fn lock_writes_four_cells_with_the_number_of_the_shape() {
    for block in Game::new(11).blocks {
        let id = block.id as i32;
        let mut game = game_with(placed(block, 2, 9, 4));
        let cells = game.current_block.get_cell_positions();
        game.lock_block();
        let mut expected = free_field();
        for cell in &cells {
            expected[cell.row as usize][cell.column as usize] = id;
        }
        assert_eq!(game.grid.grid, expected);
        let taken = game.grid.grid.iter().flatten().filter(|&&cell| cell != 0).count();
        assert_eq!(taken, 4);
    }
}

#[test]
fn lock_brings_the_next_piece_into_play_and_draws_a_new_one() {
    let mut game = Game::new(1);
    let mut rng = game.rng;
    game.current_block = placed(OBlock::new().block, 0, 18, 0);
    game.lock_block();
    assert_eq!(place_of(&game.current_block), (7, 0, 0, 3));
    assert_eq!(place_of(&game.next_block), (5, 0, 0, 3));
    rng.next_u64();
    assert_eq!(game.rng, rng);
}

#[test]
fn hard_drop_lands_on_the_bottom_and_locks() {
    let mut game = game_with(IBlock::new().block);
    assert_eq!(game.move_block_up(), 0);
    let mut expected = free_field();
    for column in 3..7 {
        expected[19][column] = 3;
    }
    assert_eq!(game.grid.grid, expected);
    assert_eq!(place_of(&game.current_block), (7, 0, 0, 3));
    assert_eq!(game.score, 0);
}

#[test]
fn hard_drop_lands_on_what_lies_below() {
    let mut game = game_with(OBlock::new().block);
    game.grid.grid[12][5] = 2;
    assert_eq!(game.move_block_up(), 0);
    let mut expected = free_field();
    expected[12][5] = 2;
    expected[10][4] = 4;
    expected[10][5] = 4;
    expected[11][4] = 4;
    expected[11][5] = 4;
    assert_eq!(game.grid.grid, expected);
}

#[test]
fn hard_drop_of_a_resting_piece_locks_it_once() {
    let mut game = game_with(placed(OBlock::new().block, 0, 18, 4));
    assert_eq!(game.move_block_up(), 0);
    let mut expected = free_field();
    expected[18][4] = 4;
    expected[18][5] = 4;
    expected[19][4] = 4;
    expected[19][5] = 4;
    assert_eq!(game.grid.grid, expected);
    assert_eq!(game.score, 0);
    assert_eq!(place_of(&game.current_block), (7, 0, 0, 3));
    assert_eq!(game.next_block.id, 5);
}

#[test]
fn hard_drop_that_completes_a_row_clears_it() {
    let mut game = game_with(IBlock::new().block);
    fill_row_except(&mut game.grid.grid, 19, &[3, 4, 5, 6]);
    assert_eq!(game.move_block_up(), 1);
    assert_eq!(game.grid.grid, free_field());
    assert_eq!(game.score, 100);
}

#[test]
fn hard_drop_locks_a_blocked_piece_and_passes_over_its_cells_above_the_field() {
    let mut game = game_with(placed(IBlock::new().block, 1, -1, 3));
    game.grid.grid[3][5] = 1;
    assert_eq!(game.move_block_up(), 0);
    let mut expected = free_field();
    expected[0][5] = 3;
    expected[1][5] = 3;
    expected[2][5] = 3;
    expected[3][5] = 1;
    assert_eq!(game.grid.grid, expected);
}

#[test]
fn rotate_turns_the_piece_where_it_is_allowed() {
    let mut game = game_with(TBlock::new().block);
    assert!(game.rotate_block());
    assert_eq!(place_of(&game.current_block), (6, 1, 0, 3));
    assert!(game.rotate_block());
    assert!(game.rotate_block());
    assert!(game.rotate_block());
    assert_eq!(place_of(&game.current_block), (6, 0, 0, 3));
}

#[test]
fn rotate_at_the_wall_is_undone() {
    let mut game = game_with(placed(IBlock::new().block, 1, 5, -2));
    let before = game.current_block.get_cell_positions();
    assert!(!game.rotate_block());
    assert_eq!(place_of(&game.current_block), (3, 1, 5, -2));
    assert_eq!(game.current_block.get_cell_positions(), before);
}

#[test]
fn rotate_above_the_field_is_undone() {
    let mut game = game_with(IBlock::new().block);
    assert!(!game.rotate_block());
    assert_eq!(place_of(&game.current_block), (3, 0, -1, 3));
}

#[test]
fn rotate_onto_a_taken_cell_is_undone() {
    let mut game = game_with(TBlock::new().block);
    game.grid.grid[2][4] = 1;
    assert!(!game.rotate_block());
    assert_eq!(place_of(&game.current_block), (6, 0, 0, 3));
}

#[test]
fn update_score_pays_by_the_table() {
    let mut game = Game::new(1);
    let mut pay = |lines: u32, points: u32| {
        let before = game.score;
        game.update_score(lines, points);
        game.score - before
    };
    assert_eq!(pay(0, 0), 0);
    assert_eq!(pay(1, 0), 100);
    assert_eq!(pay(2, 0), 300);
    assert_eq!(pay(3, 0), 500);
    assert_eq!(pay(4, 0), 0);
    assert_eq!(pay(5, 0), 0);
    assert_eq!(pay(u32::MAX, 0), 0);
    assert_eq!(pay(0, 1), 1);
    assert_eq!(pay(1, 1), 101);
    assert_eq!(pay(4, 7), 7);
}

#[test]
fn update_score_reaches_the_largest_score() {
    let mut game = Game::new(1);
    game.score = u32::MAX - 501;
    game.update_score(3, 1);
    assert_eq!(game.score, u32::MAX);
}

#[test]
fn held_down_key_pays_one_point_for_each_round() {
    let mut game = Game::new(1);
    for round in 1..=18u32 {
        assert_eq!(game.handle_input(None, true), QUIET);
        assert_eq!(game.score, round);
        assert_eq!(place_of(&game.current_block), (4, 0, round as i32, 4));
    }
    assert_eq!(game.grid.grid, free_field());
}

#[test]
fn held_down_key_pays_its_point_when_the_piece_locks() {
    let mut game = game_with(placed(OBlock::new().block, 0, 18, 4));
    assert_eq!(game.handle_input(None, true), QUIET);
    assert_eq!(game.score, 1);
    assert_eq!(game.grid.grid[19][4], 4);
    assert_eq!(game.current_block.id, 7);
}

#[test]
fn keys_move_drop_and_turn_the_piece() {
    let mut game = game_with(TBlock::new().block);
    assert_eq!(game.handle_input(Some(Key::Left), false), QUIET);
    assert_eq!(place_of(&game.current_block), (6, 0, 0, 2));
    assert_eq!(game.handle_input(Some(Key::Right), false), QUIET);
    assert_eq!(game.handle_input(Some(Key::Right), false), QUIET);
    assert_eq!(place_of(&game.current_block), (6, 0, 0, 4));
    assert_eq!(
        game.handle_input(Some(Key::R), false),
        Signals { restart_music: false, rotate_sound: true, clear_sounds: 0 }
    );
    assert_eq!(place_of(&game.current_block), (6, 1, 0, 4));
    assert_eq!(game.handle_input(Some(Key::Other), false), QUIET);
    assert_eq!(game.handle_input(Some(Key::Null), false), QUIET);
    assert_eq!(game.handle_input(None, false), QUIET);
    assert_eq!(place_of(&game.current_block), (6, 1, 0, 4));
    assert_eq!(game.score, 0);
    assert_eq!(game.handle_input(Some(Key::Up), false), QUIET);
    assert_eq!(game.grid.grid[19][5], 6);
    assert_eq!(game.current_block.id, 7);
    assert_eq!(game.score, 0);
}

#[test]
fn a_turn_that_is_undone_plays_no_sound() {
    let mut game = game_with(IBlock::new().block);
    assert_eq!(game.handle_input(Some(Key::R), false), QUIET);
    assert_eq!(game.current_block.rotation_state, 0);
}

#[test]
fn the_held_key_is_obeyed_before_the_pressed_key() {
    let mut game = game_with(TBlock::new().block);
    assert_eq!(game.handle_input(Some(Key::Left), true), QUIET);
    assert_eq!(place_of(&game.current_block), (6, 0, 1, 2));
    assert_eq!(game.score, 1);
}

#[test]
fn two_locks_in_one_round_play_the_sound_twice() {
    let mut game = game_with(placed(OBlock::new().block, 0, 18, 0));
    fill_row_except(&mut game.grid.grid, 17, &[4, 5]);
    fill_row_except(&mut game.grid.grid, 18, &[0, 1]);
    fill_row_except(&mut game.grid.grid, 19, &[0, 1]);
    let signals = game.handle_input(Some(Key::Up), true);
    assert_eq!(signals, Signals { restart_music: false, rotate_sound: false, clear_sounds: 2 });
    let mut expected = free_field();
    expected[19][3] = 7;
    expected[19][4] = 7;
    assert_eq!(game.grid.grid, expected);
    assert_eq!(game.score, 300 + 1 + 100);
    assert_eq!(place_of(&game.current_block), (5, 0, 0, 3));
    assert_eq!(game.next_block.id, 7);
    assert!(!game.game_over);
}

#[test]
fn the_game_is_over_when_the_next_piece_does_not_fit() {
    let mut game = Game::new(1);
    game.grid.grid[0][3] = 1;
    assert_eq!(game.move_block_up(), 0);
    assert!(game.game_over);
    assert_eq!(place_of(&game.current_block), (7, 0, 0, 3));
    assert_eq!(place_of(&game.next_block), (5, 0, 0, 3));
    assert_eq!(game.grid.grid[19][4], 4);
}

#[test]
fn rows_are_cleared_and_paid_for_though_the_game_is_over() {
    let mut game = game_with(placed(OBlock::new().block, 0, 18, 0));
    game.grid.grid[0][3] = 1;
    fill_row_except(&mut game.grid.grid, 18, &[0, 1]);
    fill_row_except(&mut game.grid.grid, 19, &[0, 1]);
    assert_eq!(game.lock_block(), 2);
    assert!(game.game_over);
    assert_eq!(game.score, 300);
    let mut expected = free_field();
    expected[2][3] = 1;
    assert_eq!(game.grid.grid, expected);
}

#[test]
fn a_game_that_is_over_does_not_move() {
    let mut game = game_with(placed(TBlock::new().block, 0, 4, 3));
    game.game_over = true;
    game.score = 12;
    game.move_block_left();
    game.move_block_right();
    game.move_block_right();
    assert_eq!(game.move_block_down(), 0);
    assert_eq!(game.move_block_up(), 0);
    assert!(!game.rotate_block());
    assert_eq!(game.handle_input(None, true), QUIET);
    assert_eq!(game.handle_input(Some(Key::Null), true), QUIET);
    assert_eq!(place_of(&game.current_block), (6, 0, 4, 3));
    assert_eq!(game.grid.grid, free_field());
    assert_eq!(game.score, 12);
    assert_eq!(game.next_block.id, 7);
    assert!(game.game_over);
}

#[test]
fn any_key_starts_a_game_that_is_over_anew() {
    let mut game = Game::new(1);
    game.grid.grid[0][3] = 1;
    game.move_block_up();
    game.score = 77;
    assert!(game.game_over);
    let signals = game.handle_input(Some(Key::Other), true);
    assert_eq!(signals, Signals { restart_music: true, rotate_sound: false, clear_sounds: 0 });
    assert!(!game.game_over);
    assert_eq!(game.score, 0);
    assert_eq!(game.grid.grid, free_field());
    assert_eq!(place_of(&game.current_block), (7, 0, 0, 3));
    assert_eq!(place_of(&game.next_block), (2, 0, 0, 3));
    assert_eq!(game.blocks.len(), 7);
}

#[test]
fn reset_frees_the_field_and_draws_two_pieces() {
    let mut game = Game::new(1);
    let mut rng = game.rng;
    game.grid.grid[7][7] = 7;
    game.score = 900;
    game.game_over = true;
    game.reset();
    assert_eq!(game.grid.grid, free_field());
    assert_eq!(game.score, 0);
    assert!(!game.game_over);
    assert_eq!(place_of(&game.current_block), (5, 0, 0, 3));
    assert_eq!(place_of(&game.next_block), (7, 0, 0, 3));
    rng.next_u64();
    rng.next_u64();
    assert_eq!(game.rng, rng);
}

#[test]
fn reset_lets_a_game_that_is_over_run_again() {
    let mut game = Game::new(1);
    for row in 0..20 {
        fill_row_except(&mut game.grid.grid, row, &[0]);
    }
    game.score = 1234;
    game.game_over = true;
    game.reset();
    assert!(!game.game_over);
    assert_eq!(game.score, 0);
    assert_eq!(game.grid.grid, free_field());
    assert_eq!((game.grid.num_rows, game.grid.num_cols), (20, 10));
    for block in [&game.current_block, &game.next_block] {
        assert!((1..=7).contains(&block.id));
        assert_eq!(block.rotation_state, 0);
        assert_eq!(block.row_offset, if block.id == 3 { -1 } else { 0 });
        assert_eq!(block.column_offset, if block.id == 4 { 4 } else { 3 });
    }
    assert!(game.block_fits());
    game.move_block_left();
    assert_eq!(game.current_block.column_offset, 2);
}

#[test]
fn reset_of_a_running_game_leaves_it_running() {
    let mut game = game_with(placed(TBlock::new().block, 2, 9, 5));
    game.score = 7;
    game.reset();
    assert!(!game.game_over);
    assert_eq!(game.score, 0);
    assert_eq!(place_of(&game.current_block), (5, 0, 0, 3));
}

#[test]
fn held_down_key_moves_the_piece_one_row_each_round_and_nothing_else() {
    let mut game = game_with(placed(TBlock::new().block, 3, 2, 6));
    game.grid.grid[19][0] = 4;
    game.score = 50;
    let field = game.grid.grid.clone();
    let rng = game.rng;
    for round in 1..=15 {
        assert_eq!(game.handle_input(None, true), QUIET);
        assert_eq!(place_of(&game.current_block), (6, 3, 2 + round, 6));
        assert_eq!(game.score, 50 + round as u32);
    }
    assert_eq!(game.grid.grid, field);
    assert_eq!(place_of(&game.next_block), (7, 0, 0, 3));
    assert_eq!(game.rng, rng);
    assert!(!game.game_over);
}

#[test]
fn cells_of_the_piece_in_play_are_where_the_field_shows_them_after_a_lock() {
    let mut game = game_with(placed(LBlock::new().block, 3, 17, 7));
    let cells = game.current_block.get_cell_positions();
    assert_eq!(
        cells,
        vec![
            Position { row: 17, column: 7 },
            Position { row: 17, column: 8 },
            Position { row: 18, column: 8 },
            Position { row: 19, column: 8 },
        ]
    );
    game.lock_block();
    for cell in cells {
        assert_eq!(game.grid.grid[cell.row as usize][cell.column as usize], 1);
    }
}

#[test]
fn a_game_in_play_stays_in_play() {
    let keys = [
        None,
        Some(Key::Left),
        Some(Key::Right),
        Some(Key::R),
        Some(Key::Up),
        Some(Key::Other),
        Some(Key::Null),
    ];
    let mut game = Game::new(20240229);
    let mut choice = SplitMixXoshiro256Rng::new(5);
    let mut locks_seen = 0;
    for _ in 0..5000 {
        let drawn = choice.next_u64();
        let key = keys[(drawn % 7) as usize];
        let held = (drawn >> 8) % 4 == 0;
        let score_before = game.score;
        let was_over = game.game_over;
        let next_before = game.next_block.id;
        game.handle_input(key, held);
        if game.next_block.id != next_before {
            locks_seen += 1;
        }
        if was_over {
            assert!(game.score == score_before || game.score == 0);
        } else {
            assert!(game.score >= score_before);
        }
        assert_eq!((game.grid.num_rows, game.grid.num_cols), (20, 10));
        assert_eq!(game.grid.grid.len(), 20);
        for row in &game.grid.grid {
            assert_eq!(row.len(), 10);
            assert!(row.iter().all(|cell| (0..=7).contains(cell)));
            assert!(row.iter().any(|&cell| cell == 0));
        }
        assert!((1..=7).contains(&game.current_block.id));
        assert!(game.current_block.rotation_state < 4);
        for cell in game.current_block.get_cell_positions() {
            assert!((0..20).contains(&cell.row));
            assert!((0..10).contains(&cell.column));
        }
        assert!(!game.is_block_outside());
        assert!((1..=7).contains(&game.next_block.id));
        assert_eq!(game.next_block.rotation_state, 0);
        let row_offset = if game.next_block.id == 3 { -1 } else { 0 };
        let column_offset = if game.next_block.id == 4 { 4 } else { 3 };
        assert_eq!(
            (game.next_block.row_offset, game.next_block.column_offset),
            (row_offset, column_offset)
        );
        if !game.game_over {
            assert!(game.block_fits());
        }
    }
    assert!(locks_seen > 100);
}

#[test]
fn draw_gives_the_field_the_piece_in_play_and_the_next_piece() {
    let mut game = game_with(placed(TBlock::new().block, 1, 6, 2));
    game.grid.grid[19][0] = 5;
    let tiles = game.draw();
    assert_eq!(tiles.len(), 200 + 4 + 4);
    assert_eq!(&tiles[..200], &game.grid.draw()[..]);
    assert_eq!(&tiles[200..204], &game.current_block.draw(11, 11)[..]);
    assert_eq!(&tiles[204..], &game.next_block.draw(270, 270)[..]);
    let colors = get_cell_colors();
    assert_eq!(tiles[190], Tile { x: 11, y: 581, width: 29, height: 29, color: colors[5] });
    assert_eq!(tiles[200], Tile { x: 101, y: 191, width: 29, height: 29, color: colors[6] });
    assert_eq!(tiles[204], Tile { x: 360, y: 270, width: 29, height: 29, color: colors[7] });
}

#[test]
fn the_preview_shows_each_shape_in_the_middle_of_its_panel() {
    let corner = |next: TetrisBlock| {
        let mut game = Game::new(1);
        game.next_block = next;
        let tiles = game.draw();
        let cells = game.next_block.get_cell_positions();
        (tiles[204].x - cells[0].column * 30, tiles[204].y - cells[0].row * 30)
    };
    assert_eq!(corner(IBlock::new().block), (255, 290));
    assert_eq!(corner(OBlock::new().block), (255, 280));
    assert_eq!(corner(LBlock::new().block), (270, 270));
    assert_eq!(corner(ZBlock::new().block), (270, 270));
    assert_eq!(corner(TBlock::new().block), (270, 270));
}
