use tetrs::bag::Bag;
use tetrs::board::{Board, Cell};
use tetrs::game::{Action, Game, GameState};
use tetrs::mode::GameMode;
use tetrs::piece::Piece;
use tetrs::tetromino::{PieceColor, Rotation, TetrominoType};

/// Drive a fresh game through the countdown into the Playing state.
fn start_playing(mode: GameMode, seed: u64) -> Game {
    let mut game = Game::with_seed(mode, seed, 0);
    game.update(3000);
    assert_eq!(game.state, GameState::Playing);
    game
}

#[test]
fn test_new_game_uses_requested_mode() {
    // The convenience constructor carries the chosen mode and clock anchor
    let game = Game::new(GameMode::Sprint, 500);
    assert_eq!(game.mode(), GameMode::Sprint);
    assert_eq!(game.score.level, 5);
    assert_eq!(game.state, GameState::Countdown(3));
    assert!(game.board.is_empty());
    assert!(game.current_piece.is_some());

    let default_game = Game::default();
    assert_eq!(default_game.mode(), GameMode::Marathon);
    assert_eq!(default_game.score.level, 1);
}

#[test]
fn test_countdown_reaches_playing() {
    let mut game = Game::with_seed(GameMode::Marathon, 1, 0);
    assert_eq!(game.state, GameState::Countdown(3));
    game.update(1000);
    assert_eq!(game.state, GameState::Countdown(2));
    game.update(2000);
    assert_eq!(game.state, GameState::Countdown(1));
    game.update(3000);
    assert_eq!(game.state, GameState::Playing);
}

#[test]
fn test_first_piece_matches_seeded_bag() {
    let mut bag = Bag::with_seed(42);
    let expected = bag.next();
    let game = Game::with_seed(GameMode::Marathon, 42, 0);
    assert_eq!(game.current_piece.unwrap().piece_type, expected);
}

#[test]
fn test_hard_drop_scores_two_per_cell() {
    // New game, Marathon, seed 42: hard-dropping the first piece with no
    // rotation scores exactly 2 x the drop distance (nothing can clear).
    let mut bag = Bag::with_seed(42);
    let kind = bag.next();
    let mut probe = Piece::new(kind);
    let distance = probe.hard_drop(&Board::new());

    let mut game = start_playing(GameMode::Marathon, 42);
    game.process_action(Action::HardDrop, 3000);
    assert_eq!(game.score.points, 2 * distance as u64);
    assert!(game.piece_just_locked);
    assert!(game.last_clear_info.is_none());
}

#[test]
fn test_game_over_on_top_out() {
    // Stacking hard drops in the center column must eventually lock a cell
    // at or above the visible height and end the game.
    let mut game = start_playing(GameMode::Marathon, 7);
    let mut drops = 0;
    while game.state == GameState::Playing && drops < 80 {
        game.process_action(Action::HardDrop, 3000);
        drops += 1;
    }
    assert_eq!(game.state, GameState::GameOver);
}

#[test]
fn test_tspin_kick_five_forces_full_tspin() {
    // A T piece whose last rotation used kick index 5 is a full T-spin even
    // when only 3 diagonals (not both front corners) are filled.
    let mut game = Game::with_seed(GameMode::Marathon, 1, 0);
    // Pivot at (5, 5); fill down-left, down-right and up-left. The front
    // corners for North are up-left and up-right, so only one is filled.
    game.board.set(6, 4, Cell::Filled(PieceColor::Green));
    game.board.set(6, 6, Cell::Filled(PieceColor::Green));
    game.board.set(4, 4, Cell::Filled(PieceColor::Green));
    let piece = Piece {
        piece_type: TetrominoType::T,
        rotation: Rotation::North,
        row: 5,
        col: 5,
        last_kick: 5,
    };
    assert_eq!(game.detect_t_spin(&piece), Some(true));

    // The same placement through an ordinary kick is only a mini T-spin
    let mini = Piece { last_kick: 2, ..piece };
    assert_eq!(game.detect_t_spin(&mini), Some(false));

    // Without any kick it is no T-spin at all
    let plain = Piece { last_kick: 0, ..piece };
    assert_eq!(game.detect_t_spin(&plain), None);
}

#[test]
fn test_lock_delay_cap() {
    // A grounded piece that receives more than 15 reset-eligible moves
    // still locks once 500ms pass since the last counted reset.
    let mut game = start_playing(GameMode::Marathon, 3);
    // Drive the piece to the floor without locking it
    for _ in 0..25 {
        game.process_action(Action::SoftDrop, 3000);
    }
    // Ground contact starts the lock timer
    game.update(4000);
    assert_eq!(game.state, GameState::Playing);
    assert!(!game.piece_just_locked);

    // 20 reset-eligible moves, all at the same instant; only the first 15
    // restart the timer
    for k in 0..10 {
        let _ = k;
        game.process_action(Action::MoveLeft, 4010);
        game.process_action(Action::MoveRight, 4010);
    }
    // Just before the capped timer elapses nothing locks...
    game.update(4509);
    assert!(!game.piece_just_locked);
    // ...and at 500ms past the last counted reset the piece locks
    game.update(4510);
    assert!(game.piece_just_locked);
}

#[test]
fn test_hold_swaps_and_is_once_per_piece() {
    let mut game = start_playing(GameMode::Marathon, 9);
    let first = game.current_piece.unwrap().piece_type;
    let mut bag = Bag::with_seed(9);
    let _ = bag.next();
    let second = bag.next();

    game.process_action(Action::Hold, 3000);
    assert_eq!(game.hold_piece, Some(first));
    assert_eq!(game.current_piece.unwrap().piece_type, second);

    // Hold again: no-op until the piece locks
    game.process_action(Action::Hold, 3000);
    assert_eq!(game.hold_piece, Some(first));
    assert_eq!(game.current_piece.unwrap().piece_type, second);
}

#[test]
fn test_pause_and_resume() {
    let mut game = start_playing(GameMode::Marathon, 5);
    game.process_action(Action::Pause, 3100);
    assert_eq!(game.state, GameState::Paused);
    // Game actions are ignored while paused
    let piece = game.current_piece;
    game.process_action(Action::MoveLeft, 3200);
    assert_eq!(game.current_piece, piece);
    game.process_action(Action::Pause, 3300);
    assert_eq!(game.state, GameState::Playing);
}

#[test]
fn test_quit_forces_game_over() {
    let mut game = start_playing(GameMode::Marathon, 5);
    game.process_action(Action::Quit, 3100);
    assert_eq!(game.state, GameState::GameOver);
}

#[test]
fn test_gravity_moves_piece_down() {
    let mut game = start_playing(GameMode::Marathon, 11);
    let row0 = game.current_piece.unwrap().row;
    // Level 1 gravity is 1000ms per row
    game.update(3999);
    assert_eq!(game.current_piece.unwrap().row, row0);
    game.update(4000);
    assert_eq!(game.current_piece.unwrap().row, row0 - 1);
}

#[test]
fn test_sprint_victory() {
    let mut game = start_playing(GameMode::Sprint, 13);
    // Reaching the target lines completes Sprint with a victory
    game.score.lines = 40;
    game.update(4000);
    assert_eq!(game.state, GameState::Victory);
}

#[test]
fn test_ultra_time_up() {
    let mut game = start_playing(GameMode::Ultra, 13);
    // The 3-minute limit ends an Ultra round
    game.update(3000 + 180000);
    assert_eq!(game.state, GameState::GameOver);
}

#[test]
fn test_line_clear_through_lock() {
    // Find a seed whose first piece is the O piece, which lands on
    // columns 4 and 5 when dropped without moving.
    let mut seed = 0u64;
    loop {
        if Bag::with_seed(seed).next() == TetrominoType::O {
            break;
        }
        seed += 1;
        assert!(seed < 10_000);
    }

    let mut game = start_playing(GameMode::Marathon, seed);
    // Fill the bottom row except the two columns the O piece will land on
    for col in 0..10 {
        if col != 4 && col != 5 {
            game.board.set(0, col, Cell::Filled(PieceColor::Green));
        }
    }
    let mut probe = Piece::new(TetrominoType::O);
    let distance = probe.hard_drop(&game.board);

    game.process_action(Action::HardDrop, 3000);

    // One line cleared: hard drop pays 2 per cell, the single pays 100 x 1
    assert_eq!(game.score.lines, 1);
    assert_eq!(game.score.points, 2 * distance as u64 + 100);
    assert_eq!(game.score.combo, 0);
    let info = game.last_clear_info.unwrap();
    assert_eq!(info.lines, 1);
    assert!(!info.is_tspin);
    assert_eq!(info.combo, 0);
    assert!(!info.back_to_back);
    // The upper half of the O piece compacted down to the bottom row
    assert_eq!(game.board.get(0, 4), Some(Cell::Filled(PieceColor::Yellow)));
    assert!(game.board.get(1, 0).unwrap().is_empty());
}

#[test]
fn test_soft_drop_scores_one_per_cell() {
    let mut game = start_playing(GameMode::Marathon, 21);
    let kind = game.current_piece.unwrap().piece_type;
    let mut probe = Piece::new(kind);
    let total = probe.hard_drop(&Board::new());

    // Three soft-drop steps, then hard drop the rest
    for _ in 0..3 {
        game.process_action(Action::SoftDrop, 3000);
    }
    game.process_action(Action::HardDrop, 3000);
    // 1 point per soft-dropped cell, 2 per hard-dropped cell
    assert_eq!(game.score.points, 3 + 2 * (total as u64 - 3));
}
