use tetrs::board::{Board, Cell, BOARD_WIDTH, TOTAL_HEIGHT};
use tetrs::tetromino::PieceColor;

#[test]
fn test_new_board_is_empty() {
    let board = Board::new();
    assert!(board.is_empty());
}

#[test]
fn test_set_and_get() {
    let mut board = Board::new();
    assert!(board.set(5, 5, Cell::Filled(PieceColor::Red)));
    assert_eq!(board.get(5, 5), Some(Cell::Filled(PieceColor::Red)));
}

#[test]
fn test_out_of_bounds() {
    let board = Board::new();
    assert_eq!(board.get(-1, 0), None);
    assert_eq!(board.get(0, -1), None);
    assert_eq!(board.get(TOTAL_HEIGHT as i32, 0), None);
    assert_eq!(board.get(0, BOARD_WIDTH as i32), None);
}

#[test]
fn test_clear_single_line() {
    let mut board = Board::new();
    // Fill the bottom row
    for col in 0..BOARD_WIDTH {
        board.set(0, col as i32, Cell::Filled(PieceColor::Cyan));
    }
    // Add a block on row 1
    board.set(1, 0, Cell::Filled(PieceColor::Red));

    let cleared = board.clear_lines();
    assert_eq!(cleared, 1);
    // The block from row 1 should now be on row 0
    assert_eq!(board.get(0, 0), Some(Cell::Filled(PieceColor::Red)));
    assert!(board.get(1, 0).unwrap().is_empty());
}

#[test]
fn test_clear_preserves_row_order() {
    let mut board = Board::new();
    // Row 0 full, row 1 a red marker, row 2 full, row 3 a blue marker
    for col in 0..BOARD_WIDTH {
        board.set(0, col as i32, Cell::Filled(PieceColor::Cyan));
        board.set(2, col as i32, Cell::Filled(PieceColor::Green));
    }
    board.set(1, 3, Cell::Filled(PieceColor::Red));
    board.set(3, 4, Cell::Filled(PieceColor::Blue));

    let cleared = board.clear_lines();
    assert_eq!(cleared, 2);
    // Kept rows shift down in their original order
    assert_eq!(board.get(0, 3), Some(Cell::Filled(PieceColor::Red)));
    assert_eq!(board.get(1, 4), Some(Cell::Filled(PieceColor::Blue)));
    assert!(board.get(2, 3).unwrap().is_empty());
}

#[test]
fn test_valid_positions() {
    let mut board = Board::new();
    // Above the grid is valid (spawn headroom); outside columns is not
    assert!(board.is_valid_position(TOTAL_HEIGHT as i32, 0));
    assert!(!board.is_valid_position(0, -1));
    assert!(!board.is_valid_position(0, BOARD_WIDTH as i32));
    assert!(!board.is_valid_position(-1, 0));
    // An occupied cell is invalid
    board.set(2, 2, Cell::Filled(PieceColor::Yellow));
    assert!(!board.is_valid_position(2, 2));
    assert!(board.is_valid_position(2, 3));
}

#[test]
fn test_topped_out() {
    let mut board = Board::new();
    assert!(!board.is_topped_out());
    board.set(20, 5, Cell::Filled(PieceColor::Magenta));
    assert!(board.is_topped_out());
}
