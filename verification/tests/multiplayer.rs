use tetrs::board::{Board, Cell, BOARD_HEIGHT, BOARD_WIDTH};
use tetrs::multiplayer::{
    calculate_garbage, cell_from_index, cell_to_index, encode_board, ConnectionState, GameMessage,
    MultiplayerSession, OpponentState, Role,
};
use tetrs::tetromino::PieceColor;

#[test]
fn test_garbage_values() {
    // Regular clears: single 0, double 1, triple 2, tetris 4
    assert_eq!(calculate_garbage(1, false, 0, false), 0);
    assert_eq!(calculate_garbage(2, false, 0, false), 1);
    assert_eq!(calculate_garbage(3, false, 0, false), 2);
    assert_eq!(calculate_garbage(4, false, 0, false), 4);
    // T-spins: single 2, double 4, triple 6
    assert_eq!(calculate_garbage(1, true, 0, false), 2);
    assert_eq!(calculate_garbage(2, true, 0, false), 4);
    assert_eq!(calculate_garbage(3, true, 0, false), 6);
}

#[test]
fn test_garbage_bonuses_and_cap() {
    // Back-to-back adds one on difficult clears only
    assert_eq!(calculate_garbage(4, false, 0, true), 5);
    assert_eq!(calculate_garbage(2, false, 0, true), 1);
    // Combo adds its count, capped at 10
    assert_eq!(calculate_garbage(2, false, 3, false), 4);
    assert_eq!(calculate_garbage(2, false, 25, false), 11);
    // Everything is capped at 12
    assert_eq!(calculate_garbage(3, true, 25, true), 12);
}

#[test]
fn test_cell_codec_round_trip() {
    let cells = [
        Cell::Empty,
        Cell::Filled(PieceColor::Cyan),
        Cell::Filled(PieceColor::Yellow),
        Cell::Filled(PieceColor::Magenta),
        Cell::Filled(PieceColor::Green),
        Cell::Filled(PieceColor::Red),
        Cell::Filled(PieceColor::Blue),
        Cell::Filled(PieceColor::Orange),
    ];
    for (i, cell) in cells.iter().enumerate() {
        assert_eq!(cell_to_index(cell), i as u8);
        assert_eq!(cell_from_index(i as u8), *cell);
    }
    // Unknown indices decode to the last color
    assert_eq!(cell_from_index(200), Cell::Filled(PieceColor::Orange));
}

#[test]
fn test_encode_board_layout() {
    let mut board = Board::new();
    board.set(0, 0, Cell::Filled(PieceColor::Cyan));
    board.set(1, 9, Cell::Filled(PieceColor::Red));
    let encoded = encode_board(&board);
    assert_eq!(encoded.len(), BOARD_HEIGHT * BOARD_WIDTH);
    assert_eq!(encoded[0], 1);
    assert_eq!(encoded[19], 5);
    assert_eq!(encoded[25], 0);
}

#[test]
fn test_opponent_state_update() {
    let mut opp = OpponentState::default();
    assert_eq!(opp.level, 1);
    let mut board = Board::new();
    board.set(0, 3, Cell::Filled(PieceColor::Blue));
    let encoded = encode_board(&board);
    opp.update_from_message(&encoded, 1234, 5, 2);
    assert_eq!(opp.score, 1234);
    assert_eq!(opp.lines, 5);
    assert_eq!(opp.level, 2);
    assert_eq!(opp.board[0][3], Cell::Filled(PieceColor::Blue));
    assert_eq!(opp.board[0][4], Cell::Empty);
}

#[test]
fn test_lobby_ready_flow_host() {
    let mut session = MultiplayerSession::new(Role::Host);
    session.state = ConnectionState::Lobby { we_ready: false, they_ready: false };

    // Our ready alone does not start the countdown
    assert!(!session.set_ready(1000));
    assert_eq!(
        session.state,
        ConnectionState::Lobby { we_ready: true, they_ready: false }
    );
    let sent = session.take_outbox();
    assert_eq!(sent, vec![GameMessage::Ready]);

    // The opponent's ready completes the lobby and the host starts 3-2-1
    assert!(session.set_opponent_ready(2000));
    assert_eq!(session.state, ConnectionState::Countdown { value: 3 });
    let sent = session.take_outbox();
    assert_eq!(sent, vec![GameMessage::Countdown { value: 3 }]);

    // The countdown follows the clock and enters Playing at zero
    assert_eq!(session.update_countdown(2500), None);
    assert_eq!(session.update_countdown(3000), Some(2));
    assert_eq!(session.update_countdown(4000), Some(1));
    assert_eq!(session.update_countdown(5000), Some(0));
    assert_eq!(session.state, ConnectionState::Playing);
}

#[test]
fn test_guest_receives_countdown() {
    let mut session = MultiplayerSession::new(Role::Guest);
    session.receive_countdown(2);
    assert_eq!(session.state, ConnectionState::Countdown { value: 2 });
    session.receive_countdown(0);
    assert_eq!(session.state, ConnectionState::Playing);
}

#[test]
fn test_pending_garbage_is_drained() {
    let mut session = MultiplayerSession::new(Role::Guest);
    session.pending_garbage = 4;
    assert_eq!(session.take_pending_garbage(), 4);
    assert_eq!(session.take_pending_garbage(), 0);
}

#[test]
fn test_send_garbage_skips_zero() {
    let mut session = MultiplayerSession::new(Role::Host);
    session.send_garbage(0);
    assert!(session.take_outbox().is_empty());
    session.send_garbage(3);
    assert_eq!(session.take_outbox(), vec![GameMessage::Garbage { lines: 3 }]);
}

#[test]
fn test_disconnect_clears_state() {
    let mut session = MultiplayerSession::new(Role::Host);
    session.state = ConnectionState::Playing;
    session.send_disconnect();
    assert_eq!(session.state, ConnectionState::Disconnected);
    assert_eq!(session.take_outbox(), vec![GameMessage::Disconnect]);
}
