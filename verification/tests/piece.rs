use tetrs::board::{Board, Cell, BOARD_WIDTH};
use tetrs::piece::Piece;
use tetrs::tetromino::{PieceColor, Rotation, RotationDirection, TetrominoType};

#[test]
fn test_spawn_position() {
    let piece = Piece::new(TetrominoType::T);
    // T piece spawns at row 21 (20 + 1), col 4
    assert_eq!(piece.row, 21);
    assert_eq!(piece.col, 4);
}

#[test]
fn test_block_positions() {
    let piece = Piece::new(TetrominoType::O);
    let positions = piece.block_positions();
    // O piece at spawn should have 4 blocks forming a 2x2 square
    assert_eq!(positions.len(), 4);
}

#[test]
fn test_move_down() {
    let board = Board::new();
    let mut piece = Piece::new(TetrominoType::T);
    let original_row = piece.row;
    assert!(piece.move_down(&board));
    assert_eq!(piece.row, original_row - 1);
}

#[test]
fn test_hard_drop() {
    let board = Board::new();
    let mut piece = Piece::new(TetrominoType::I);
    let distance = piece.hard_drop(&board);
    // I piece should drop to the bottom
    assert!(distance > 0);
}

#[test]
fn test_move_resets_kick_tracking() {
    let board = Board::new();
    let mut piece = Piece::new(TetrominoType::T);
    assert!(piece.rotate(RotationDirection::Clockwise, &board));
    // In-place rotation uses the identity kick, index 1
    assert_eq!(piece.last_kick, 1);
    assert_eq!(piece.rotation, Rotation::East);
    assert!(piece.move_left(&board));
    assert_eq!(piece.last_kick, 0);
}

#[test]
fn test_rotation_failure_restores_piece() {
    let mut board = Board::new();
    // Box the T piece in completely at the bottom
    let mut piece = Piece::new(TetrominoType::T);
    piece.hard_drop(&board);
    for col in 0..BOARD_WIDTH {
        for row in 1..5 {
            board.set(row, col as i32, Cell::Filled(PieceColor::Green));
        }
    }
    let before = piece;
    let ok = piece.rotate(RotationDirection::Clockwise, &board);
    if !ok {
        assert_eq!(piece, before);
    }
}

#[test]
fn test_ghost_row_on_empty_board() {
    let board = Board::new();
    let piece = Piece::new(TetrominoType::T);
    // T at North has its lowest cells on the pivot row, so it rests at row 0
    assert_eq!(piece.ghost_row(&board), 0);
}

#[test]
fn test_is_t_piece() {
    assert!(Piece::new(TetrominoType::T).is_t_piece());
    assert!(!Piece::new(TetrominoType::J).is_t_piece());
}
