//! Multiplayer game logic: the versus-session state machine, the compact
//! board encoding exchanged between peers, and the garbage-line formula.
//!
//! The transport itself (peer discovery, streams, message framing) is an
//! external collaborator: this module only decides. Outgoing messages are
//! placed in an outbox that the network layer drains and sends; incoming
//! events are handed to the methods here as plain values.

use vstd::prelude::*;

use crate::board::{Board, Cell, BOARD_HEIGHT, BOARD_WIDTH};
use crate::game::Game;
use crate::tetromino::PieceColor;

verus! {

/// Messages sent between players.
#[derive(Debug, Clone, PartialEq, Eq)]
pub enum GameMessage {
    /// Initial handshake with player name.
    Hello { name: String },
    /// Seed exchange for synchronized piece generation.
    Seed { seed: u64 },
    /// Ready to start (sent after seed received).
    Ready,
    /// Countdown sync (3, 2, 1, go).
    Countdown { value: u8 },
    /// Board state update (sent on piece lock).
    BoardState { cells: Vec<u8>, score: u64, lines: u32, level: u32 },
    /// Garbage lines to add to the opponent.
    Garbage { lines: u8 },
    /// Player topped out / game over.
    GameOver { final_score: u64 },
    /// Player won (opponent topped out).
    Victory,
    /// Request rematch.
    RematchRequest,
    /// Accept rematch.
    RematchAccept,
    /// Decline rematch / disconnect.
    Disconnect,
}

/// Connection role.
#[derive(Debug, Clone, Copy, PartialEq, Eq, Structural)]
pub enum Role {
    Host,
    Guest,
}

/// Multiplayer connection state.
#[derive(Debug, Clone, PartialEq, Eq)]
pub enum ConnectionState {
    /// Not connected.
    Disconnected,
    /// Waiting for an opponent to connect (host only).
    WaitingForOpponent { ticket: String },
    /// Connecting to the host (guest only).
    Connecting,
    /// Connected, exchanging seeds.
    Connected,
    /// In the lobby, waiting for both players to ready up.
    Lobby { we_ready: bool, they_ready: bool },
    /// Both players ready, counting down.
    Countdown { value: u8 },
    /// Game in progress.
    Playing,
    /// Game ended, showing results.
    GameOver { we_won: bool },
}

/// Commands the game loop hands to the network task.
#[derive(Debug)]
pub enum NetCommand {
    /// Send a message to the opponent.
    Send(GameMessage),
    /// Disconnect.
    Disconnect,
}

/// Events received from the network.
#[derive(Debug)]
pub enum NetEvent {
    /// Connection established.
    Connected { opponent_name: String },
    /// Received the opponent's seed.
    SeedReceived { seed: u64 },
    /// The opponent is ready.
    OpponentReady,
    /// Countdown update.
    Countdown { value: u8 },
    /// The opponent's board state updated.
    BoardUpdate { cells: Vec<u8>, score: u64, lines: u32, level: u32 },
    /// Received garbage lines.
    GarbageReceived { lines: u8 },
    /// Opponent game over.
    OpponentGameOver { final_score: u64 },
    /// Connection lost.
    Disconnected { reason: String },
    /// An error occurred.
    Error { message: String },
}

/// The wire index of a cell: 0 for empty, 1-7 for the piece colors.
pub open spec fn spec_cell_index(cell: Cell) -> u8 {
    match cell {
        Cell::Empty => 0u8,
        Cell::Filled(color) => match color {
            PieceColor::Cyan => 1u8,
            PieceColor::Yellow => 2u8,
            PieceColor::Magenta => 3u8,
            PieceColor::Green => 4u8,
            PieceColor::Red => 5u8,
            PieceColor::Blue => 6u8,
            PieceColor::Orange => 7u8,
        },
    }
}

/// The cell a wire index decodes to; unknown indices decode to the last
/// color rather than failing.
pub open spec fn spec_cell_from_index(index: u8) -> Cell {
    if index == 0 {
        Cell::Empty
    } else if index == 1 {
        Cell::Filled(PieceColor::Cyan)
    } else if index == 2 {
        Cell::Filled(PieceColor::Yellow)
    } else if index == 3 {
        Cell::Filled(PieceColor::Magenta)
    } else if index == 4 {
        Cell::Filled(PieceColor::Green)
    } else if index == 5 {
        Cell::Filled(PieceColor::Red)
    } else if index == 6 {
        Cell::Filled(PieceColor::Blue)
    } else {
        Cell::Filled(PieceColor::Orange)
    }
}

/// Convert a cell to its wire index for network transmission.
pub fn cell_to_index(cell: &Cell) -> (r: u8)
    ensures
        r == spec_cell_index(*cell),
{
    match cell {
        Cell::Empty => 0,
        Cell::Filled(color) => match color {
            PieceColor::Cyan => 1,
            PieceColor::Yellow => 2,
            PieceColor::Magenta => 3,
            PieceColor::Green => 4,
            PieceColor::Red => 5,
            PieceColor::Blue => 6,
            PieceColor::Orange => 7,
        },
    }
}

/// Convert a wire index back to a cell.
pub fn cell_from_index(index: u8) -> (r: Cell)
    ensures
        r == spec_cell_from_index(index),
{
    match index {
        0 => Cell::Empty,
        1 => Cell::Filled(PieceColor::Cyan),
        2 => Cell::Filled(PieceColor::Yellow),
        3 => Cell::Filled(PieceColor::Magenta),
        4 => Cell::Filled(PieceColor::Green),
        5 => Cell::Filled(PieceColor::Red),
        6 => Cell::Filled(PieceColor::Blue),
        _ => Cell::Filled(PieceColor::Orange),
    }
}

/// Every board cell survives the wire encoding: decoding its index gives
/// the cell back.
pub proof fn lemma_cell_codec_round_trip(cell: Cell)
    ensures
        spec_cell_from_index(spec_cell_index(cell)) == cell,
{
}

/// The visible board flattened to wire indices, row-major from the bottom
/// row: 20 rows of 10 cells.
pub open spec fn spec_encoded_board(grid: Seq<Seq<Cell>>) -> Seq<u8> {
    Seq::new((BOARD_HEIGHT * BOARD_WIDTH) as nat, |i: int| spec_cell_index(grid[i / 10][i % 10]))
}

/// Encode the visible board for transmission.
pub fn encode_board(board: &Board) -> (r: Vec<u8>)
    requires
        board.wf(),
    ensures
        r@ == spec_encoded_board(board.grid()),
{
    let mut cells: Vec<u8> = Vec::new();
    let mut row: usize = 0;
    while row < BOARD_HEIGHT
        invariant
            board.wf(),
            row <= BOARD_HEIGHT,
            cells@.len() == row * BOARD_WIDTH,
            forall|i: int|
                0 <= i < cells@.len() ==> cells@[i] == spec_cell_index(
                    board.grid()[i / 10][i % 10],
                ),
        decreases BOARD_HEIGHT - row,
    {
        let mut col: usize = 0;
        while col < BOARD_WIDTH
            invariant
                board.wf(),
                row < BOARD_HEIGHT,
                col <= BOARD_WIDTH,
                cells@.len() == row * BOARD_WIDTH + col,
                forall|i: int|
                    0 <= i < cells@.len() ==> cells@[i] == spec_cell_index(
                        board.grid()[i / 10][i % 10],
                    ),
            decreases BOARD_WIDTH - col,
        {
            let cell = match board.get(row as i32, col as i32) {
                Some(c) => c,
                None => Cell::Empty,
            };
            cells.push(cell_to_index(&cell));
            proof {
                let i = (row * BOARD_WIDTH + col) as int;
                assert(i / 10 == row && i % 10 == col) by (nonlinear_arith)
                    requires
                        i == row * 10 + col,
                        0 <= col < 10,
                        row >= 0,
                ;
            }
            col += 1;
        }
        row += 1;
    }
    proof {
        assert(cells@ =~= spec_encoded_board(board.grid()));
    }
    cells
}

/// The opponent's mirrored game state, for display.
#[derive(Debug, Clone)]
pub struct OpponentState {
    pub name: String,
    /// The visible rows of the opponent's board, bottom first.
    pub board: Vec<Vec<Cell>>,
    pub score: u64,
    pub lines: u32,
    pub level: u32,
    pub game_over: bool,
}

impl OpponentState {
    /// The mirrored visible grid.
    pub open spec fn grid(self) -> Seq<Seq<Cell>> {
        self.board@.map_values(|r: Vec<Cell>| r@)
    }

    /// The mirror holds exactly the visible rows.
    pub open spec fn wf(self) -> bool {
        &&& self.grid().len() == BOARD_HEIGHT
        &&& forall|r: int|
            0 <= r < self.grid().len() ==> (#[trigger] self.grid()[r]).len() == BOARD_WIDTH
    }

    /// Update from a board-state message: stats are taken over and every
    /// transmitted cell index is decoded into place; cells beyond the
    /// message keep their old value.
    pub fn update_from_message(&mut self, cells: &[u8], score: u64, lines: u32, level: u32)
        requires
            old(self).wf(),
        ensures
            final(self).wf(),
            final(self).name == old(self).name,
            final(self).game_over == old(self).game_over,
            final(self).score == score,
            final(self).lines == lines,
            final(self).level == level,
            forall|r: int, c: int|
                0 <= r < BOARD_HEIGHT && 0 <= c < BOARD_WIDTH ==> #[trigger] final(self).grid()[r][c]
                    == (if r * 10 + c < cells@.len() {
                    spec_cell_from_index(cells@[r * 10 + c])
                } else {
                    old(self).grid()[r][c]
                }),
    {
        self.score = score;
        self.lines = lines;
        self.level = level;

        let ghost orig_grid = self.grid();
        let mut row: usize = 0;
        while row < BOARD_HEIGHT
            invariant
                self.wf(),
                row <= BOARD_HEIGHT,
                self.name == old(self).name,
                self.game_over == old(self).game_over,
                self.score == score,
                self.lines == lines,
                self.level == level,
                orig_grid == old(self).grid(),
                forall|r: int, c: int|
                    0 <= r < row && 0 <= c < BOARD_WIDTH ==> #[trigger] self.grid()[r][c] == (
                    if r * 10 + c < cells@.len() {
                        spec_cell_from_index(cells@[r * 10 + c])
                    } else {
                        orig_grid[r][c]
                    }),
                forall|r: int|
                    row <= r < BOARD_HEIGHT ==> #[trigger] self.grid()[r] == orig_grid[r],
            decreases BOARD_HEIGHT - row,
        {
            let mut col: usize = 0;
            while col < BOARD_WIDTH
                invariant
                    self.wf(),
                    row < BOARD_HEIGHT,
                    col <= BOARD_WIDTH,
                    self.name == old(self).name,
                    self.game_over == old(self).game_over,
                    self.score == score,
                    self.lines == lines,
                    self.level == level,
                    orig_grid == old(self).grid(),
                    forall|r: int, c: int|
                        0 <= r < row && 0 <= c < BOARD_WIDTH ==> #[trigger] self.grid()[r][c] == (
                        if r * 10 + c < cells@.len() {
                            spec_cell_from_index(cells@[r * 10 + c])
                        } else {
                            orig_grid[r][c]
                        }),
                    forall|c: int|
                        0 <= c < col ==> #[trigger] self.grid()[row as int][c] == (
                        if row * 10 + c < cells@.len() {
                            spec_cell_from_index(cells@[row * 10 + c])
                        } else {
                            orig_grid[row as int][c]
                        }),
                    forall|c: int|
                        col <= c < BOARD_WIDTH ==> #[trigger] self.grid()[row as int][c]
                            == orig_grid[row as int][c],
                    forall|r: int|
                        row < r < BOARD_HEIGHT ==> #[trigger] self.grid()[r] == orig_grid[r],
                decreases BOARD_WIDTH - col,
            {
                let idx = row * BOARD_WIDTH + col;
                if idx < cells.len() {
                    let decoded = cell_from_index(cells[idx]);
                    proof {
                        assert(self.grid()[row as int] == self.board@[row as int]@);
                    }
                    let ghost g_before = self.grid();
                    let row_vec: &mut Vec<Cell> = &mut self.board[row];
                    row_vec.set(col, decoded);
                    proof {
                        assert(self.grid() =~= g_before.update(
                            row as int,
                            g_before[row as int].update(col as int, decoded),
                        ));
                    }
                }
                col += 1;
            }
            row += 1;
        }
    }
}

/// A blank opponent mirror: the default display before any update arrives.
impl Default for OpponentState {
    fn default() -> (r: OpponentState)
        ensures
            r.wf(),
            r.name@ == "Opponent"@,
            r.score == 0,
            r.lines == 0,
            r.level == 1,
            !r.game_over,
            forall|row: int, c: int|
                0 <= row < BOARD_HEIGHT && 0 <= c < BOARD_WIDTH ==> (#[trigger] r.grid()[row][c])
                    == Cell::Empty,
    {
        let mut board: Vec<Vec<Cell>> = Vec::new();
        let mut row: usize = 0;
        while row < BOARD_HEIGHT
            invariant
                board@.len() == row,
                row <= BOARD_HEIGHT,
                forall|i: int|
                    0 <= i < row ==> (#[trigger] board@[i])@.len() == BOARD_WIDTH && forall|c: int|
                        0 <= c < BOARD_WIDTH ==> board@[i]@[c] == Cell::Empty,
            decreases BOARD_HEIGHT - row,
        {
            let mut r: Vec<Cell> = Vec::new();
            let mut c: usize = 0;
            while c < BOARD_WIDTH
                invariant
                    r@.len() == c,
                    c <= BOARD_WIDTH,
                    forall|j: int| 0 <= j < c ==> (#[trigger] r@[j]) == Cell::Empty,
                decreases BOARD_WIDTH - c,
            {
                r.push(Cell::Empty);
                c += 1;
            }
            board.push(r);
            row += 1;
        }
        OpponentState {
            name: String::from_str("Opponent"),
            board,
            score: 0,
            lines: 0,
            level: 1,
            game_over: false,
        }
    }
}

/// The garbage a clear sends: by the standard guideline, doubles send 1,
/// triples 2, Tetrises 4, T-spin singles/doubles/triples 2/4/6, plus 1 for
/// back-to-back on a difficult clear and the combo count capped at 10,
/// everything capped at 12.
pub open spec fn spec_calculate_garbage(
    lines: u32,
    is_tspin: bool,
    combo: u32,
    back_to_back: bool,
) -> u8 {
    let base: int = if is_tspin {
        if lines == 1 {
            2
        } else if lines == 2 {
            4
        } else if lines == 3 {
            6
        } else {
            0
        }
    } else {
        if lines == 1 {
            0
        } else if lines == 2 {
            1
        } else if lines == 3 {
            2
        } else if lines == 4 {
            4
        } else {
            0
        }
    };
    let b2b_bonus: int = if back_to_back && (lines == 4 || is_tspin) {
        1
    } else {
        0
    };
    let combo_bonus: int = if combo > 0 {
        if combo < 10 {
            combo as int
        } else {
            10
        }
    } else {
        0
    };
    let total = base + b2b_bonus + combo_bonus;
    if total > 12 {
        12u8
    } else {
        total as u8
    }
}

/// Calculate the garbage lines to send for a clear.
pub fn calculate_garbage(lines: u32, is_tspin: bool, combo: u32, back_to_back: bool) -> (r: u8)
    ensures
        r == spec_calculate_garbage(lines, is_tspin, combo, back_to_back),
{
    let base: u8 = if is_tspin {
        match lines {
            1 => 2,
            2 => 4,
            3 => 6,
            _ => 0,
        }
    } else {
        match lines {
            1 => 0,
            2 => 1,
            3 => 2,
            4 => 4,
            _ => 0,
        }
    };

    let b2b_bonus: u8 = if back_to_back && (lines == 4 || is_tspin) {
        1
    } else {
        0
    };
    let combo_bonus: u8 = if combo > 0 {
        if combo < 10 {
            combo as u8
        } else {
            10
        }
    } else {
        0
    };

    let total = base + b2b_bonus + combo_bonus;
    if total > 12 {
        12
    } else {
        total
    }
}

/// The versus-session state machine.
///
/// It decides lobby readiness, countdown and garbage bookkeeping; every
/// message it wants sent goes into the outbox for the network layer to
/// drain.
pub struct MultiplayerSession {
    /// Our role (host or guest).
    pub role: Role,
    /// Current connection state.
    pub state: ConnectionState,
    /// The opponent's mirrored state.
    pub opponent: OpponentState,
    /// The seed for this game.
    pub game_seed: u64,
    /// Pending garbage lines to add to our own board.
    pub pending_garbage: u8,
    /// Clock reading when the countdown started (host only).
    pub countdown_start_ms: Option<u64>,
    /// Messages awaiting transmission by the network layer.
    pub outbox: Vec<GameMessage>,
}

impl MultiplayerSession {
    /// A fresh, disconnected session.
    pub fn new(role: Role) -> (s: MultiplayerSession)
        ensures
            s.role == role,
            s.state == ConnectionState::Disconnected,
            s.opponent.wf(),
            s.game_seed == 0,
            s.pending_garbage == 0,
            s.countdown_start_ms is None,
            s.outbox@ == Seq::<GameMessage>::empty(),
    {
        MultiplayerSession {
            role,
            state: ConnectionState::Disconnected,
            opponent: OpponentState::default(),
            game_seed: 0,
            pending_garbage: 0,
            countdown_start_ms: None,
            outbox: Vec::new(),
        }
    }

    /// Queue a message for the network layer.
    pub fn send(&mut self, msg: GameMessage)
        ensures
            *final(self) == (MultiplayerSession {
                outbox: final(self).outbox,
                ..*old(self)
            }),
            final(self).outbox@ == old(self).outbox@.push(msg),
    {
        self.outbox.push(msg);
    }

    /// Hand the queued messages to the network layer, emptying the outbox.
    pub fn take_outbox(&mut self) -> (msgs: Vec<GameMessage>)
        ensures
            msgs@ == old(self).outbox@,
            *final(self) == (MultiplayerSession {
                outbox: final(self).outbox,
                ..*old(self)
            }),
            final(self).outbox@ == Seq::<GameMessage>::empty(),
    {
        let mut taken: Vec<GameMessage> = Vec::new();
        core::mem::swap(&mut taken, &mut self.outbox);
        taken
    }

    /// Start the countdown (host only): three seconds, announced to the
    /// opponent.
    fn start_countdown(&mut self, now_ms: u64)
        ensures
            *final(self) == (MultiplayerSession {
                state: ConnectionState::Countdown { value: 3u8 },
                countdown_start_ms: Some(now_ms),
                outbox: final(self).outbox,
                ..*old(self)
            }),
            final(self).outbox@ == old(self).outbox@.push(
                GameMessage::Countdown { value: 3u8 },
            ),
    {
        self.countdown_start_ms = Some(now_ms);
        self.state = ConnectionState::Countdown { value: 3 };
        self.send(GameMessage::Countdown { value: 3 });
    }

    /// Mark ourselves ready in the lobby; returns true if this started the
    /// countdown (host with both sides ready). Readying up is announced;
    /// readying twice does nothing.
    pub fn set_ready(&mut self, now_ms: u64) -> (started: bool)
        ensures
            match old(self).state {
                ConnectionState::Lobby { we_ready, they_ready } => {
                    if we_ready {
                        !started && *final(self) == *old(self)
                    } else if they_ready && old(self).role == Role::Host {
                        &&& started
                        &&& final(self).state == (ConnectionState::Countdown { value: 3u8 })
                        &&& final(self).countdown_start_ms == Some(now_ms)
                        &&& final(self).outbox@ == old(self).outbox@.push(
                            GameMessage::Ready,
                        ).push(GameMessage::Countdown { value: 3u8 })
                        &&& final(self).role == old(self).role
                        &&& final(self).opponent == old(self).opponent
                        &&& final(self).game_seed == old(self).game_seed
                        &&& final(self).pending_garbage == old(self).pending_garbage
                    } else {
                        &&& !started
                        &&& final(self).state == (ConnectionState::Lobby {
                            we_ready: true,
                            they_ready,
                        })
                        &&& final(self).outbox@ == old(self).outbox@.push(GameMessage::Ready)
                        &&& final(self).role == old(self).role
                        &&& final(self).opponent == old(self).opponent
                        &&& final(self).game_seed == old(self).game_seed
                        &&& final(self).pending_garbage == old(self).pending_garbage
                        &&& final(self).countdown_start_ms == old(self).countdown_start_ms
                    }
                },
                _ => !started && *final(self) == *old(self),
            },
    {
        let (we_ready, they_ready) = match self.state {
            ConnectionState::Lobby { we_ready, they_ready } => (we_ready, they_ready),
            _ => {
                return false;
            },
        };
        if we_ready {
            // Already ready
            return false;
        }
        self.state = ConnectionState::Lobby { we_ready: true, they_ready };
        self.send(GameMessage::Ready);

        // If both are ready and we host, start the countdown
        if they_ready && matches!(self.role, Role::Host) {
            self.start_countdown(now_ms);
            return true;
        }
        false
    }

    /// Mark the opponent ready; returns true if this started the countdown
    /// (host with both sides ready).
    pub fn set_opponent_ready(&mut self, now_ms: u64) -> (started: bool)
        ensures
            match old(self).state {
                ConnectionState::Lobby { we_ready, they_ready } => {
                    if we_ready && old(self).role == Role::Host {
                        &&& started
                        &&& final(self).state == (ConnectionState::Countdown { value: 3u8 })
                        &&& final(self).countdown_start_ms == Some(now_ms)
                        &&& final(self).outbox@ == old(self).outbox@.push(
                            GameMessage::Countdown { value: 3u8 },
                        )
                        &&& final(self).role == old(self).role
                        &&& final(self).opponent == old(self).opponent
                        &&& final(self).game_seed == old(self).game_seed
                        &&& final(self).pending_garbage == old(self).pending_garbage
                    } else {
                        &&& !started
                        &&& *final(self) == (MultiplayerSession {
                            state: ConnectionState::Lobby { we_ready, they_ready: true },
                            ..*old(self)
                        })
                    }
                },
                _ => !started && *final(self) == *old(self),
            },
    {
        let we_ready = match self.state {
            ConnectionState::Lobby { we_ready, .. } => we_ready,
            _ => {
                return false;
            },
        };
        self.state = ConnectionState::Lobby { we_ready, they_ready: true };

        if we_ready && matches!(self.role, Role::Host) {
            self.start_countdown(now_ms);
            return true;
        }
        false
    }

    /// Advance the countdown from the clock (host only); returns the new
    /// value when it changed, announcing it to the opponent, and enters
    /// Playing at zero.
    pub fn update_countdown(&mut self, now_ms: u64) -> (changed: Option<u8>)
        ensures
            match (old(self).role, old(self).state, old(self).countdown_start_ms) {
                (Role::Host, ConnectionState::Countdown { value }, Some(start)) => {
                    let elapsed_s = if now_ms >= start {
                        ((now_ms - start) / 1000) as int
                    } else {
                        0int
                    };
                    let new_value = if elapsed_s >= 3 {
                        0int
                    } else {
                        3 - elapsed_s
                    };
                    if new_value != value {
                        &&& changed == Some(new_value as u8)
                        &&& final(self).outbox@ == old(self).outbox@.push(
                            GameMessage::Countdown { value: new_value as u8 },
                        )
                        &&& (if new_value == 0 {
                            final(self).state == ConnectionState::Playing
                                && final(self).countdown_start_ms is None
                        } else {
                            final(self).state == (ConnectionState::Countdown {
                                value: new_value as u8,
                            }) && final(self).countdown_start_ms == old(self).countdown_start_ms
                        })
                        &&& final(self).role == old(self).role
                        &&& final(self).opponent == old(self).opponent
                        &&& final(self).game_seed == old(self).game_seed
                        &&& final(self).pending_garbage == old(self).pending_garbage
                    } else {
                        changed is None && *final(self) == *old(self)
                    }
                },
                _ => changed is None && *final(self) == *old(self),
            },
    {
        if !matches!(self.role, Role::Host) {
            return None;
        }
        let value = match self.state {
            ConnectionState::Countdown { value } => value,
            _ => {
                return None;
            },
        };
        let start = match self.countdown_start_ms {
            Some(start) => start,
            None => {
                return None;
            },
        };

        let elapsed_s = now_ms.saturating_sub(start) / 1000;
        let new_value: u8 = if elapsed_s >= 3 {
            0
        } else {
            (3 - elapsed_s) as u8
        };

        if new_value != value {
            if new_value == 0 {
                self.state = ConnectionState::Playing;
                self.countdown_start_ms = None;
            } else {
                self.state = ConnectionState::Countdown { value: new_value };
            }
            self.send(GameMessage::Countdown { value: new_value });
            return Some(new_value);
        }
        None
    }

    /// Handle an incoming countdown value from the host (guest only):
    /// zero starts play.
    pub fn receive_countdown(&mut self, value: u8)
        ensures
            *final(self) == (MultiplayerSession {
                state: if value == 0 {
                    ConnectionState::Playing
                } else {
                    ConnectionState::Countdown { value }
                },
                ..*old(self)
            }),
    {
        if value == 0 {
            self.state = ConnectionState::Playing;
        } else {
            self.state = ConnectionState::Countdown { value };
        }
    }

    /// Queue our board state for the opponent, from raw stats.
    pub fn send_board_state_raw(&mut self, board: &Board, score: u64, lines: u32, level: u32)
        requires
            board.wf(),
        ensures
            *final(self) == (MultiplayerSession {
                outbox: final(self).outbox,
                ..*old(self)
            }),
            final(self).outbox@.len() == old(self).outbox@.len() + 1,
            final(self).outbox@.subrange(0, old(self).outbox@.len() as int) == old(self).outbox@,
            final(self).outbox@.last() matches GameMessage::BoardState {
                cells,
                score: s,
                lines: l,
                level: lv,
            } && cells@ == spec_encoded_board(board.grid()) && s == score && l == lines && lv
                == level,
    {
        let cells = encode_board(board);
        let ghost before = self.outbox@;
        self.send(GameMessage::BoardState { cells, score, lines, level });
        proof {
            assert(self.outbox@.subrange(0, before.len() as int) =~= before);
        }
    }

    /// Queue our board state for the opponent, from the game.
    pub fn send_board_state(&mut self, game: &Game)
        requires
            game.board.wf(),
        ensures
            *final(self) == (MultiplayerSession {
                outbox: final(self).outbox,
                ..*old(self)
            }),
            final(self).outbox@.len() == old(self).outbox@.len() + 1,
            final(self).outbox@.subrange(0, old(self).outbox@.len() as int) == old(self).outbox@,
            final(self).outbox@.last() matches GameMessage::BoardState {
                cells,
                score: s,
                lines: l,
                level: lv,
            } && cells@ == spec_encoded_board(game.board.grid()) && s == game.score.points && l
                == game.score.lines && lv == game.score.level,
    {
        self.send_board_state_raw(&game.board, game.score.points, game.score.lines, game.score.level)
    }

    /// Queue garbage for the opponent; nothing is sent for zero lines.
    pub fn send_garbage(&mut self, lines: u8)
        ensures
            *final(self) == (MultiplayerSession {
                outbox: final(self).outbox,
                ..*old(self)
            }),
            final(self).outbox@ == if lines > 0 {
                old(self).outbox@.push(GameMessage::Garbage { lines })
            } else {
                old(self).outbox@
            },
    {
        if lines > 0 {
            self.send(GameMessage::Garbage { lines });
        }
    }

    /// Take the pending garbage owed to our board, resetting it to zero.
    pub fn take_pending_garbage(&mut self) -> (garbage: u8)
        ensures
            garbage == old(self).pending_garbage,
            *final(self) == (MultiplayerSession { pending_garbage: 0u8, ..*old(self) }),
    {
        let garbage = self.pending_garbage;
        self.pending_garbage = 0;
        garbage
    }

    /// Queue our game-over announcement.
    pub fn send_game_over(&mut self, final_score: u64)
        ensures
            *final(self) == (MultiplayerSession {
                outbox: final(self).outbox,
                ..*old(self)
            }),
            final(self).outbox@ == old(self).outbox@.push(
                GameMessage::GameOver { final_score },
            ),
    {
        self.send(GameMessage::GameOver { final_score });
    }

    /// Queue a disconnect notice and drop the connection state.
    pub fn send_disconnect(&mut self)
        ensures
            final(self).state == ConnectionState::Disconnected,
            final(self).outbox@ == old(self).outbox@.push(GameMessage::Disconnect),
            final(self).role == old(self).role,
            final(self).opponent == old(self).opponent,
            final(self).game_seed == old(self).game_seed,
            final(self).pending_garbage == old(self).pending_garbage,
            final(self).countdown_start_ms == old(self).countdown_start_ms,
    {
        self.send(GameMessage::Disconnect);
        self.disconnect();
    }

    /// Drop the connection state.
    pub fn disconnect(&mut self)
        ensures
            *final(self) == (MultiplayerSession {
                state: ConnectionState::Disconnected,
                ..*old(self)
            }),
    {
        self.state = ConnectionState::Disconnected;
    }
}

} // verus!
