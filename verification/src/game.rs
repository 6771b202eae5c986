//! Core game state and logic: the single state machine that drives the
//! board, the falling piece, gravity, lock delay, hold and scoring.
//!
//! All timing comes from a caller-supplied monotonic clock in milliseconds,
//! so the whole machine is a deterministic function of (mode, seed, action
//! sequence, clock readings).

use vstd::prelude::*;

use crate::bag::Bag;
use crate::board::{
    grid_cleared, grid_is_empty, grid_kept_rows, grid_locked, grid_positions_valid, Board,
    BOARD_HEIGHT, BOARD_WIDTH, TOTAL_HEIGHT,
};
use crate::mode::{GameMode, ModeState};
use crate::piece::{lemma_shape_bounds, Piece};
use crate::score::{ClearType, Score};
use crate::tetromino::{Rotation, RotationDirection, TetrominoType};

verus! {

/// Grace period in milliseconds after a piece touches down before it locks.
pub const LOCK_DELAY_MS: u64 = 500;

/// Cap on lock-delay resets per piece once it stops descending.
pub const MAX_LOCK_RESETS: u8 = 15;

/// Info about the last line clear (for garbage calculation in multiplayer).
#[derive(Debug, Clone, Copy, PartialEq, Eq, Structural)]
pub struct ClearInfo {
    pub lines: u8,
    pub is_tspin: bool,
    pub combo: i32,
    pub back_to_back: bool,
}

/// Game state.
#[derive(Debug, Clone, Copy, PartialEq, Eq, Structural)]
pub enum GameState {
    /// Pre-game countdown: 3, 2, 1.
    Countdown(u8),
    Playing,
    Paused,
    GameOver,
    /// For Sprint mode when the target lines are cleared.
    Victory,
}

/// Input actions the game can process.
#[derive(Debug, Clone, Copy, PartialEq, Eq, Structural)]
pub enum Action {
    MoveLeft,
    MoveRight,
    SoftDrop,
    HardDrop,
    RotateCW,
    RotateCCW,
    Hold,
    Pause,
    Quit,
}

/// A freshly spawned piece of a kind, at its spawn position above the
/// visible area.
pub open spec fn spec_spawn_piece(kind: TetrominoType) -> Piece {
    Piece {
        piece_type: kind,
        rotation: Rotation::North,
        row: (20 + kind.spec_spawn_position().0) as i32,
        col: kind.spec_spawn_position().1,
        last_kick: 0u8,
    }
}

/// A diagonal neighbor counts as filled if it is occupied or out of bounds.
pub open spec fn spec_corner_filled(grid: Seq<Seq<crate::board::Cell>>, row: int, col: int) -> bool {
    if 0 <= row < TOTAL_HEIGHT && 0 <= col < BOARD_WIDTH {
        !grid[row][col].spec_is_empty()
    } else {
        true
    }
}

/// How many of the four diagonal neighbors around the pivot are filled.
pub open spec fn spec_filled_corner_count(grid: Seq<Seq<crate::board::Cell>>, piece: Piece) -> int {
    let r = piece.row as int;
    let c = piece.col as int;
    (if spec_corner_filled(grid, r + 1, c - 1) {
        1int
    } else {
        0int
    }) + (if spec_corner_filled(grid, r + 1, c + 1) {
        1int
    } else {
        0int
    }) + (if spec_corner_filled(grid, r - 1, c - 1) {
        1int
    } else {
        0int
    }) + (if spec_corner_filled(grid, r - 1, c + 1) {
        1int
    } else {
        0int
    })
}

/// Whether both "front" diagonals - the two the T faces, by its rotation -
/// are filled.
pub open spec fn spec_front_corners_filled(
    grid: Seq<Seq<crate::board::Cell>>,
    piece: Piece,
) -> bool {
    let r = piece.row as int;
    let c = piece.col as int;
    match piece.rotation {
        Rotation::North => spec_corner_filled(grid, r - 1, c - 1) && spec_corner_filled(
            grid,
            r - 1,
            c + 1,
        ),
        Rotation::East => spec_corner_filled(grid, r + 1, c + 1) && spec_corner_filled(
            grid,
            r - 1,
            c + 1,
        ),
        Rotation::South => spec_corner_filled(grid, r + 1, c - 1) && spec_corner_filled(
            grid,
            r + 1,
            c + 1,
        ),
        Rotation::West => spec_corner_filled(grid, r + 1, c - 1) && spec_corner_filled(
            grid,
            r - 1,
            c - 1,
        ),
    }
}

/// T-spin classification of a just-locked piece on the locked grid:
/// only a T piece placed by a rotation (nonzero kick) qualifies; at least
/// 3 filled diagonals make it a spin; both front diagonals filled - or the
/// final kick index 5, which always forces it - make it a full T-spin,
/// anything else a mini T-spin.
pub open spec fn spec_detect_t_spin(grid: Seq<Seq<crate::board::Cell>>, piece: Piece) -> Option<
    bool,
> {
    if piece.piece_type != TetrominoType::T || piece.last_kick == 0 {
        None
    } else if spec_filled_corner_count(grid, piece) >= 3 {
        if spec_front_corners_filled(grid, piece) {
            Some(true)
        } else if piece.last_kick == 5 {
            Some(true)
        } else {
            Some(false)
        }
    } else {
        None
    }
}

/// A T piece whose last successful rotation used kick index 5 is always
/// classified as a full T-spin once 3 diagonals are filled, even if the
/// front corners are not both filled.
pub proof fn lemma_kick_five_is_full_tspin(grid: Seq<Seq<crate::board::Cell>>, piece: Piece)
    requires
        piece.piece_type == TetrominoType::T,
        piece.last_kick == 5,
        spec_filled_corner_count(grid, piece) >= 3,
    ensures
        spec_detect_t_spin(grid, piece) == Some(true),
{
}

/// The main game struct.
pub struct Game {
    /// The game board.
    pub board: Board,
    /// Current falling piece.
    pub current_piece: Option<Piece>,
    /// Held piece (can swap once per piece).
    pub hold_piece: Option<TetrominoType>,
    /// Whether hold has been used this piece.
    pub hold_used: bool,
    /// Piece bag randomizer.
    pub bag: Bag,
    /// Score tracking.
    pub score: Score,
    /// Current game state.
    pub state: GameState,
    /// Game mode state.
    pub mode_state: ModeState,
    /// Clock reading of the last gravity tick.
    pub last_fall_ms: u64,
    /// Lock delay timer (Some when the piece is touching ground).
    pub lock_timer_ms: Option<u64>,
    /// Number of lock resets used.
    pub lock_resets: u8,
    /// Lowest row reached (for lock reset tracking).
    pub lowest_row: i32,
    /// Last action text to display.
    pub last_action: Option<String>,
    /// Soft drop distance this piece (for scoring).
    pub soft_drop_distance: u32,
    /// Clock reading when the countdown began.
    pub countdown_start_ms: Option<u64>,
    /// Flag set when a piece is locked (for multiplayer sync).
    pub piece_just_locked: bool,
    /// Last line clear info for garbage calculation.
    pub last_clear_info: Option<ClearInfo>,
}

impl Game {
    /// The piece bag.
    pub open spec fn spec_bag(self) -> Bag {
        self.bag
    }

    /// Whether hold has been used for the current piece.
    pub open spec fn spec_hold_used(self) -> bool {
        self.hold_used
    }

    /// The running lock-delay timer, if the piece is on the ground.
    pub open spec fn spec_lock_timer_ms(self) -> Option<u64> {
        self.lock_timer_ms
    }

    /// Lock-delay resets used by the current piece.
    pub open spec fn spec_lock_resets(self) -> u8 {
        self.lock_resets
    }

    /// The lowest pivot row the current piece has reached.
    pub open spec fn spec_lowest_row(self) -> i32 {
        self.lowest_row
    }

    /// The clock reading of the last gravity tick.
    pub open spec fn spec_last_fall_ms(self) -> u64 {
        self.last_fall_ms
    }

    /// Soft-drop distance accrued by the current piece.
    pub open spec fn spec_soft_drop_distance(self) -> u32 {
        self.soft_drop_distance
    }

    /// The clock reading when the countdown began.
    pub open spec fn spec_countdown_start_ms(self) -> Option<u64> {
        self.countdown_start_ms
    }

    /// Well-formedness: the board has its fixed dimensions, the falling
    /// piece (if any) is in range and rests on valid cells, the combo
    /// counter is in range, the reset counter is within its cap, and the
    /// bag holds its fairness invariant.
    pub open spec fn wf(self) -> bool {
        &&& self.board.wf()
        &&& self.score.wf()
        &&& self.bag.wf()
        &&& self.lock_resets <= MAX_LOCK_RESETS
        &&& match self.current_piece {
            Some(p) => p.wf() && self.board.spec_positions_valid(p.spec_block_positions()),
            None => true,
        }
    }

    /// Everything untouched by pure state-label transitions: all fields
    /// but the state label itself.
    pub open spec fn same_but_state(pre: Game, post: Game) -> bool {
        &&& post.board == pre.board
        &&& post.current_piece == pre.current_piece
        &&& post.hold_piece == pre.hold_piece
        &&& post.spec_hold_used() == pre.spec_hold_used()
        &&& post.spec_bag() == pre.spec_bag()
        &&& post.score == pre.score
        &&& post.mode_state == pre.mode_state
        &&& post.spec_last_fall_ms() == pre.spec_last_fall_ms()
        &&& post.spec_lock_timer_ms() == pre.spec_lock_timer_ms()
        &&& post.spec_lock_resets() == pre.spec_lock_resets()
        &&& post.spec_lowest_row() == pre.spec_lowest_row()
        &&& post.last_action == pre.last_action
        &&& post.spec_soft_drop_distance() == pre.spec_soft_drop_distance()
        &&& post.spec_countdown_start_ms() == pre.spec_countdown_start_ms()
        &&& post.piece_just_locked == pre.piece_just_locked
        &&& post.last_clear_info == pre.last_clear_info
    }

    /// Everything untouched by transitions that only relabel the state and
    /// advance the mode timer.
    pub open spec fn same_but_state_and_mode(pre: Game, post: Game) -> bool {
        &&& post.board == pre.board
        &&& post.current_piece == pre.current_piece
        &&& post.hold_piece == pre.hold_piece
        &&& post.spec_hold_used() == pre.spec_hold_used()
        &&& post.spec_bag() == pre.spec_bag()
        &&& post.score == pre.score
        &&& post.spec_last_fall_ms() == pre.spec_last_fall_ms()
        &&& post.spec_lock_timer_ms() == pre.spec_lock_timer_ms()
        &&& post.spec_lock_resets() == pre.spec_lock_resets()
        &&& post.spec_lowest_row() == pre.spec_lowest_row()
        &&& post.last_action == pre.last_action
        &&& post.spec_soft_drop_distance() == pre.spec_soft_drop_distance()
        &&& post.spec_countdown_start_ms() == pre.spec_countdown_start_ms()
        &&& post.piece_just_locked == pre.piece_just_locked
        &&& post.last_clear_info == pre.last_clear_info
    }

    /// Everything untouched by a move of the falling piece or by the
    /// lock-delay bookkeeping around it.
    pub open spec fn same_but_piece_and_timers(pre: Game, post: Game) -> bool {
        &&& post.board == pre.board
        &&& post.hold_piece == pre.hold_piece
        &&& post.spec_hold_used() == pre.spec_hold_used()
        &&& post.spec_bag() == pre.spec_bag()
        &&& post.score == pre.score
        &&& post.state == pre.state
        &&& post.mode_state == pre.mode_state
        &&& post.last_action == pre.last_action
        &&& post.spec_countdown_start_ms() == pre.spec_countdown_start_ms()
        &&& post.piece_just_locked == pre.piece_just_locked
        &&& post.last_clear_info == pre.last_clear_info
    }

    /// The bounded lock-delay reset around a successful move or rotation
    /// that left the piece as `moved`: reaching a new lowest row refreshes
    /// the reset budget; a running lock timer restarts only while the
    /// budget lasts, so stalling is bounded (the lock-delay cap).
    pub open spec fn rel_after_reset(pre: Game, moved: Piece, now: u64, post: Game) -> bool {
        let new_low = moved.row < pre.spec_lowest_row();
        let lowest2 = if new_low {
            moved.row
        } else {
            pre.spec_lowest_row()
        };
        let resets1 = if new_low {
            0u8
        } else {
            pre.spec_lock_resets()
        };
        &&& Game::same_but_piece_and_timers(pre, post)
        &&& post.current_piece == Some(moved)
        &&& post.spec_lowest_row() == lowest2
        &&& post.spec_soft_drop_distance() == pre.spec_soft_drop_distance()
        &&& post.spec_last_fall_ms() == pre.spec_last_fall_ms()
        &&& if resets1 < MAX_LOCK_RESETS && pre.spec_lock_timer_ms() is Some {
            post.spec_lock_resets() == resets1 + 1 && post.spec_lock_timer_ms() == Some(now)
        } else {
            post.spec_lock_resets() == resets1 && post.spec_lock_timer_ms()
                == pre.spec_lock_timer_ms()
        }
    }

    /// A sideways or downward move action: the piece moves iff the offset
    /// position is fully valid; a successful move gets the bounded
    /// lock-delay reset; a failed one changes nothing.
    pub open spec fn rel_move(pre: Game, now: u64, post: Game, dr: i32, dc: i32) -> bool {
        match pre.current_piece {
            None => post == pre,
            Some(p) => {
                if pre.board.spec_positions_valid(p.spec_moved(dr, dc).spec_block_positions()) {
                    Game::rel_after_reset(pre, p.spec_moved(dr, dc), now, post)
                } else {
                    post == pre
                }
            },
        }
    }

    /// A rotation action: SRS kick resolution decides; a successful
    /// rotation gets the bounded lock-delay reset; a failed one changes
    /// nothing.
    pub open spec fn rel_rotate(
        pre: Game,
        now: u64,
        post: Game,
        direction: RotationDirection,
    ) -> bool {
        match pre.current_piece {
            None => post == pre,
            Some(p) => {
                match p.spec_rotate(direction, pre.board) {
                    Some(p2) => Game::rel_after_reset(pre, p2, now, post),
                    None => post == pre,
                }
            },
        }
    }

    /// A soft drop action: on a successful step down the soft-drop distance
    /// accrues, the gravity clock restarts and the lock timer clears.
    pub open spec fn rel_soft_drop(pre: Game, now: u64, post: Game) -> bool {
        match pre.current_piece {
            None => post == pre,
            Some(p) => {
                if pre.board.spec_positions_valid(
                    p.spec_moved(-1i32, 0i32).spec_block_positions(),
                ) {
                    &&& Game::same_but_piece_and_timers(pre, post)
                    &&& post.current_piece == Some(p.spec_moved(-1i32, 0i32))
                    &&& post.spec_soft_drop_distance() == (if pre.spec_soft_drop_distance()
                        < u32::MAX {
                        pre.spec_soft_drop_distance() + 1
                    } else {
                        pre.spec_soft_drop_distance() as int
                    })
                    &&& post.spec_last_fall_ms() == now
                    &&& post.spec_lock_timer_ms() is None
                    &&& post.spec_lock_resets() == pre.spec_lock_resets()
                    &&& post.spec_lowest_row() == pre.spec_lowest_row()
                } else {
                    post == pre
                }
            },
        }
    }

    /// The lock procedure, started from scoring state `score0` with piece
    /// `piece` already taken out of play: soft-drop points are banked, the
    /// piece's cells are committed to the board, T-spins are classified on
    /// the locked grid, full rows are compacted away, the clear is scored
    /// (or the combo reset), the clear outbox is filled for the multiplayer
    /// layer, and the next piece is dealt - unless its spawn is blocked or
    /// a locked cell reached the hidden rows, which ends the game.
    pub open spec fn rel_lock(
        pre: Game,
        piece: Piece,
        score0: Score,
        now: u64,
        post: Game,
    ) -> bool {
        let score1 = score0.spec_add_soft_drop(pre.spec_soft_drop_distance());
        let positions = piece.spec_block_positions();
        let grid1 = grid_locked(pre.board.grid(), positions, piece.piece_type.spec_color());
        let is_t = spec_detect_t_spin(grid1, piece);
        let lines = grid1.len() - grid_kept_rows(grid1).len();
        let grid2 = grid_cleared(grid1);
        let all_clear = grid_is_empty(grid2);
        let scored = lines > 0 || is_t is Some;
        let ct = if is_t == Some(true) {
            ClearType::TSpin(lines as u8)
        } else if is_t == Some(false) {
            ClearType::MiniTSpin(lines as u8)
        } else {
            ClearType::Regular(lines as u8)
        };
        let score2 = if scored {
            score1.spec_add_clear(ct, all_clear)
        } else {
            score1.spec_reset_combo()
        };
        let next_type = pre.spec_bag().spec_next_piece();
        let spawned = spec_spawn_piece(next_type);
        let spawn_ok = grid_positions_valid(grid2, spawned.spec_block_positions());
        let block_out = exists|k: int|
            0 <= k < positions.len() && (#[trigger] positions[k]).0 >= BOARD_HEIGHT;
        &&& post.board.grid() == grid2
        &&& post.score == score2
        &&& (if scored {
            &&& post.last_action is Some
            &&& post.last_action.unwrap()@ == score1.spec_add_clear_text(ct, all_clear)
            &&& post.last_clear_info == Some(
                ClearInfo {
                    lines: lines as u8,
                    is_tspin: is_t is Some,
                    combo: score2.combo,
                    back_to_back: score1.back_to_back && (lines == 4 || is_t is Some),
                },
            )
        } else {
            &&& post.last_action is None
            &&& post.last_clear_info is None
        })
        &&& post.piece_just_locked == true
        &&& post.spec_bag().upcoming() == pre.spec_bag().spec_next_queue()
        &&& post.spec_bag().rng() == pre.spec_bag().spec_next_rng()
        &&& post.spec_bag().drawn() == pre.spec_bag().drawn().push(next_type)
        &&& post.hold_piece == pre.hold_piece
        &&& post.spec_countdown_start_ms() == pre.spec_countdown_start_ms()
        &&& (if !spawn_ok || block_out {
            &&& post.state == GameState::GameOver
            &&& post.current_piece is None
            &&& post.spec_hold_used() == pre.spec_hold_used()
            &&& post.spec_lock_timer_ms() == pre.spec_lock_timer_ms()
            &&& post.spec_lock_resets() == pre.spec_lock_resets()
            &&& post.spec_lowest_row() == pre.spec_lowest_row()
            &&& post.spec_last_fall_ms() == pre.spec_last_fall_ms()
            &&& post.spec_soft_drop_distance() == pre.spec_soft_drop_distance()
        } else {
            &&& post.state == pre.state
            &&& post.current_piece == Some(spawned)
            &&& post.spec_hold_used() == false
            &&& post.spec_lock_timer_ms() is None
            &&& post.spec_lock_resets() == 0
            &&& post.spec_lowest_row() == i32::MAX
            &&& post.spec_last_fall_ms() == now
            &&& post.spec_soft_drop_distance() == 0
        })
    }

    /// A hard drop action: the piece falls straight to its landing row,
    /// the distance is scored at two points per cell, and the piece locks
    /// immediately.
    pub open spec fn rel_hard_drop(pre: Game, now: u64, post: Game) -> bool {
        match pre.current_piece {
            None => post == pre,
            Some(p) => exists|landed: Piece|
                {
                    &&& landed.piece_type == p.piece_type
                    &&& landed.rotation == p.rotation
                    &&& landed.col == p.col
                    &&& landed.row <= p.row
                    &&& #[trigger] p.spec_landing_ensures(p.row, landed.row, pre.board)
                    &&& landed.last_kick == (if landed.row < p.row {
                        0u8
                    } else {
                        p.last_kick
                    })
                    &&& Game::rel_lock(
                        pre,
                        landed,
                        pre.score.spec_add_hard_drop((p.row - landed.row) as u32),
                        now,
                        post,
                    )
                    &&& post.mode_state == pre.mode_state
                },
        }
    }

    /// A hold action: at most once per piece, the falling piece swaps with
    /// the held kind (or a fresh deal when nothing is held); a blocked
    /// replacement spawn ends the game; otherwise per-piece transient state
    /// resets and hold is marked used.
    pub open spec fn rel_hold(pre: Game, now: u64, post: Game) -> bool {
        if pre.spec_hold_used() {
            post == pre
        } else {
            match pre.current_piece {
                None => post == pre,
                Some(cur) => {
                    let from_bag = pre.hold_piece is None;
                    let next_kind = match pre.hold_piece {
                        Some(h) => h,
                        None => pre.spec_bag().spec_next_piece(),
                    };
                    let next_piece = spec_spawn_piece(next_kind);
                    let spawn_ok = pre.board.spec_positions_valid(
                        next_piece.spec_block_positions(),
                    );
                    &&& post.hold_piece == Some(cur.piece_type)
                    &&& (if from_bag {
                        &&& post.spec_bag().upcoming() == pre.spec_bag().spec_next_queue()
                        &&& post.spec_bag().rng() == pre.spec_bag().spec_next_rng()
                        &&& post.spec_bag().drawn() == pre.spec_bag().drawn().push(next_kind)
                    } else {
                        post.spec_bag() == pre.spec_bag()
                    })
                    &&& post.board == pre.board
                    &&& post.score == pre.score
                    &&& post.mode_state == pre.mode_state
                    &&& post.last_action == pre.last_action
                    &&& post.spec_countdown_start_ms() == pre.spec_countdown_start_ms()
                    &&& post.piece_just_locked == pre.piece_just_locked
                    &&& post.last_clear_info == pre.last_clear_info
                    &&& (if !spawn_ok {
                        &&& post.state == GameState::GameOver
                        &&& post.current_piece is None
                        &&& post.spec_hold_used() == pre.spec_hold_used()
                        &&& post.spec_lock_timer_ms() == pre.spec_lock_timer_ms()
                        &&& post.spec_lock_resets() == pre.spec_lock_resets()
                        &&& post.spec_lowest_row() == pre.spec_lowest_row()
                        &&& post.spec_last_fall_ms() == pre.spec_last_fall_ms()
                        &&& post.spec_soft_drop_distance() == pre.spec_soft_drop_distance()
                    } else {
                        &&& post.state == pre.state
                        &&& post.current_piece == Some(next_piece)
                        &&& post.spec_hold_used() == true
                        &&& post.spec_lock_timer_ms() is None
                        &&& post.spec_lock_resets() == 0
                        &&& post.spec_lowest_row() == i32::MAX
                        &&& post.spec_last_fall_ms() == now
                        &&& post.spec_soft_drop_distance() == 0
                    })
                },
            }
        }
    }

    /// What `process_action` does, by state and action. Only Playing
    /// processes game actions; Pause toggles between Playing and Paused;
    /// Quit ends the game from any non-terminal state; terminal states
    /// ignore everything.
    pub open spec fn rel_process_action(pre: Game, action: Action, now: u64, post: Game) -> bool {
        match pre.state {
            GameState::Countdown(_) => {
                if action == Action::Quit {
                    Game::same_but_state(pre, post) && post.state == GameState::GameOver
                } else {
                    post == pre
                }
            },
            GameState::Paused => {
                if action == Action::Pause {
                    &&& post.state == GameState::Playing
                    &&& post.spec_last_fall_ms() == now
                    &&& post.board == pre.board
                    &&& post.current_piece == pre.current_piece
                    &&& post.hold_piece == pre.hold_piece
                    &&& post.spec_hold_used() == pre.spec_hold_used()
                    &&& post.spec_bag() == pre.spec_bag()
                    &&& post.score == pre.score
                    &&& post.mode_state == pre.mode_state
                    &&& post.spec_lock_timer_ms() == pre.spec_lock_timer_ms()
                    &&& post.spec_lock_resets() == pre.spec_lock_resets()
                    &&& post.spec_lowest_row() == pre.spec_lowest_row()
                    &&& post.last_action == pre.last_action
                    &&& post.spec_soft_drop_distance() == pre.spec_soft_drop_distance()
                    &&& post.spec_countdown_start_ms() == pre.spec_countdown_start_ms()
                    &&& post.piece_just_locked == pre.piece_just_locked
                    &&& post.last_clear_info == pre.last_clear_info
                } else if action == Action::Quit {
                    Game::same_but_state(pre, post) && post.state == GameState::GameOver
                } else {
                    post == pre
                }
            },
            GameState::Playing => match action {
                Action::MoveLeft => Game::rel_move(pre, now, post, 0i32, -1i32),
                Action::MoveRight => Game::rel_move(pre, now, post, 0i32, 1i32),
                Action::SoftDrop => Game::rel_soft_drop(pre, now, post),
                Action::HardDrop => Game::rel_hard_drop(pre, now, post),
                Action::RotateCW => Game::rel_rotate(pre, now, post, RotationDirection::Clockwise),
                Action::RotateCCW => Game::rel_rotate(
                    pre,
                    now,
                    post,
                    RotationDirection::CounterClockwise,
                ),
                Action::Hold => Game::rel_hold(pre, now, post),
                Action::Pause => Game::same_but_state(pre, post) && post.state
                    == GameState::Paused,
                Action::Quit => Game::same_but_state(pre, post) && post.state
                    == GameState::GameOver,
            },
            GameState::GameOver => post == pre,
            GameState::Victory => post == pre,
        }
    }

    /// What one frame update does during the countdown: the remaining count
    /// follows the elapsed whole seconds; at zero the game starts - the
    /// mode timer begins, the gravity clock resets, and the countdown
    /// marker clears.
    pub open spec fn rel_update_countdown(pre: Game, count: u8, now: u64, post: Game) -> bool {
        match pre.spec_countdown_start_ms() {
            None => post == pre,
            Some(start) => {
                let elapsed_s = if now >= start {
                    (now - start) / 1000
                } else {
                    0int
                };
                let new_count = if elapsed_s >= 3 {
                    0int
                } else {
                    3 - elapsed_s
                };
                if new_count == 0 {
                    &&& post.state == GameState::Playing
                    &&& post.mode_state == (ModeState {
                        start_ms: Some(now),
                        ..pre.mode_state
                    })
                    &&& post.spec_last_fall_ms() == now
                    &&& post.spec_countdown_start_ms() is None
                    &&& post.board == pre.board
                    &&& post.current_piece == pre.current_piece
                    &&& post.hold_piece == pre.hold_piece
                    &&& post.spec_hold_used() == pre.spec_hold_used()
                    &&& post.spec_bag() == pre.spec_bag()
                    &&& post.score == pre.score
                    &&& post.spec_lock_timer_ms() == pre.spec_lock_timer_ms()
                    &&& post.spec_lock_resets() == pre.spec_lock_resets()
                    &&& post.spec_lowest_row() == pre.spec_lowest_row()
                    &&& post.last_action == pre.last_action
                    &&& post.spec_soft_drop_distance() == pre.spec_soft_drop_distance()
                    &&& post.piece_just_locked == pre.piece_just_locked
                    &&& post.last_clear_info == pre.last_clear_info
                } else if new_count != count {
                    Game::same_but_state(pre, post) && post.state == GameState::Countdown(
                        new_count as u8,
                    )
                } else {
                    post == pre
                }
            },
        }
    }

    /// What one frame update does while playing: the mode timer advances
    /// and may end the round (Sprint victory, Ultra time-up); otherwise a
    /// grounded piece locks once the lock delay has fully elapsed (or
    /// starts the timer), and an airborne piece clears the timer and falls
    /// one row whenever the gravity interval has passed.
    pub open spec fn rel_update_playing(pre: Game, now: u64, post: Game) -> bool {
        let ms2 = pre.mode_state.spec_updated(now);
        if ms2.spec_is_complete(pre.score.lines) && pre.mode_state.mode == GameMode::Sprint {
            &&& Game::same_but_state_and_mode(pre, post)
            &&& post.state == GameState::Victory
            &&& post.mode_state == ms2
        } else if ms2.spec_is_complete(pre.score.lines) && pre.mode_state.mode == GameMode::Ultra {
            &&& Game::same_but_state_and_mode(pre, post)
            &&& post.state == GameState::GameOver
            &&& post.mode_state == ms2
        } else {
            match pre.current_piece {
                None => {
                    &&& Game::same_but_state_and_mode(pre, post)
                    &&& post.state == pre.state
                    &&& post.mode_state == ms2
                },
                Some(p) => {
                    let on_ground = !pre.board.spec_positions_valid(
                        p.spec_moved(-1i32, 0i32).spec_block_positions(),
                    );
                    if on_ground {
                        match pre.spec_lock_timer_ms() {
                            Some(t0) => {
                                let waited = if now >= t0 {
                                    now - t0
                                } else {
                                    0int
                                };
                                if waited >= LOCK_DELAY_MS {
                                    &&& Game::rel_lock(pre, p, pre.score, now, post)
                                    &&& post.mode_state == ms2
                                } else {
                                    &&& Game::same_but_state_and_mode(pre, post)
                                    &&& post.state == pre.state
                                    &&& post.mode_state == ms2
                                }
                            },
                            None => {
                                &&& post.spec_lock_timer_ms() == Some(now)
                                &&& post.mode_state == ms2
                                &&& post.state == pre.state
                                &&& post.board == pre.board
                                &&& post.current_piece == pre.current_piece
                                &&& post.hold_piece == pre.hold_piece
                                &&& post.spec_hold_used() == pre.spec_hold_used()
                                &&& post.spec_bag() == pre.spec_bag()
                                &&& post.score == pre.score
                                &&& post.spec_last_fall_ms() == pre.spec_last_fall_ms()
                                &&& post.spec_lock_resets() == pre.spec_lock_resets()
                                &&& post.spec_lowest_row() == pre.spec_lowest_row()
                                &&& post.last_action == pre.last_action
                                &&& post.spec_soft_drop_distance()
                                    == pre.spec_soft_drop_distance()
                                &&& post.spec_countdown_start_ms()
                                    == pre.spec_countdown_start_ms()
                                &&& post.piece_just_locked == pre.piece_just_locked
                                &&& post.last_clear_info == pre.last_clear_info
                            },
                        }
                    } else {
                        let waited = if now >= pre.spec_last_fall_ms() {
                            now - pre.spec_last_fall_ms()
                        } else {
                            0int
                        };
                        let falls = waited >= Score::spec_fall_speed_ms(pre.score.level);
                        &&& post.spec_lock_timer_ms() is None
                        &&& post.mode_state == ms2
                        &&& post.state == pre.state
                        &&& post.board == pre.board
                        &&& (if falls {
                            post.current_piece == Some(p.spec_moved(-1i32, 0i32))
                                && post.spec_last_fall_ms() == now
                        } else {
                            post.current_piece == pre.current_piece && post.spec_last_fall_ms()
                                == pre.spec_last_fall_ms()
                        })
                        &&& post.hold_piece == pre.hold_piece
                        &&& post.spec_hold_used() == pre.spec_hold_used()
                        &&& post.spec_bag() == pre.spec_bag()
                        &&& post.score == pre.score
                        &&& post.spec_lock_resets() == pre.spec_lock_resets()
                        &&& post.spec_lowest_row() == pre.spec_lowest_row()
                        &&& post.last_action == pre.last_action
                        &&& post.spec_soft_drop_distance() == pre.spec_soft_drop_distance()
                        &&& post.spec_countdown_start_ms() == pre.spec_countdown_start_ms()
                        &&& post.piece_just_locked == pre.piece_just_locked
                        &&& post.last_clear_info == pre.last_clear_info
                    }
                },
            }
        }
    }

    /// What one frame update does, by state.
    pub open spec fn rel_update(pre: Game, now: u64, post: Game) -> bool {
        match pre.state {
            GameState::Countdown(count) => Game::rel_update_countdown(pre, count, now, post),
            GameState::Playing => Game::rel_update_playing(pre, now, post),
            GameState::Paused => post == pre,
            GameState::GameOver => post == pre,
            GameState::Victory => post == pre,
        }
    }
}


/// A spawn is always fully valid on an empty, well-formed board: its cells
/// lie in rows 18..=23 and columns 2..=6.
pub proof fn lemma_spawn_valid_on_empty(b: Board, kind: TetrominoType)
    requires
        b.wf(),
        b.spec_is_empty(),
    ensures
        b.spec_positions_valid(spec_spawn_piece(kind).spec_block_positions()),
{
    let p = spec_spawn_piece(kind);
    lemma_shape_bounds(kind, Rotation::North);
    let positions = p.spec_block_positions();
    assert forall|k: int| 0 <= k < positions.len() implies b.spec_is_valid_position(
        (#[trigger] positions[k]).0 as int,
        positions[k].1 as int,
    ) by {
        let off = kind.spec_shape(Rotation::North)[k];
        assert(positions[k] == (((p.row + off.0) as i32), ((p.col + off.1) as i32)));
        assert(18 <= positions[k].0 < TOTAL_HEIGHT);
        assert(2 <= positions[k].1 < BOARD_WIDTH);
        assert(b.grid()[positions[k].0 as int][positions[k].1 as int].spec_is_empty());
    }
}

/// Once the reset budget is spent and the piece is no lower than before,
/// further reset-eligible moves leave the lock timer untouched: resets
/// beyond the cap do not extend the grace period.
pub proof fn lemma_lock_delay_cap(pre: Game, moved: Piece, now: u64, post: Game)
    requires
        Game::rel_after_reset(pre, moved, now, post),
        pre.spec_lock_resets() >= MAX_LOCK_RESETS,
        moved.row >= pre.spec_lowest_row(),
    ensures
        post.spec_lock_timer_ms() == pre.spec_lock_timer_ms(),
        post.spec_lock_resets() == pre.spec_lock_resets(),
{
}

/// A lock that put any cell at or above the visible height ends the game.
pub proof fn lemma_game_over_on_block_out(
    pre: Game,
    piece: Piece,
    score0: Score,
    now: u64,
    post: Game,
)
    requires
        Game::rel_lock(pre, piece, score0, now, post),
        exists|k: int|
            0 <= k < piece.spec_block_positions().len() && (#[trigger] piece.spec_block_positions()[
                k
            ]).0 >= BOARD_HEIGHT,
    ensures
        post.state == GameState::GameOver,
{
    let positions = piece.spec_block_positions();
    let k = choose|k: int| 0 <= k < positions.len() && (#[trigger] positions[k]).0 >= BOARD_HEIGHT;
    assert(0 <= k < positions.len() && positions[k].0 >= BOARD_HEIGHT);
}

/// A lock that clears no line and is no T-spin resets the combo to -1 and
/// leaves points (beyond the banked soft-drop cells), lines, level and the
/// back-to-back flag unchanged.
pub proof fn lemma_non_clearing_lock_resets_combo(
    pre: Game,
    piece: Piece,
    score0: Score,
    now: u64,
    post: Game,
)
    requires
        Game::rel_lock(pre, piece, score0, now, post),
        ({
            let grid1 = grid_locked(
                pre.board.grid(),
                piece.spec_block_positions(),
                piece.piece_type.spec_color(),
            );
            grid_kept_rows(grid1).len() == grid1.len() && spec_detect_t_spin(grid1, piece) is None
        }),
    ensures
        post.score.combo == -1,
        post.score.back_to_back == score0.back_to_back,
        post.score.lines == score0.lines,
        post.score.level == score0.level,
        post.score.points == crate::score::spec_sat_add(
            score0.points as int,
            pre.spec_soft_drop_distance() as int,
            u64::MAX as int,
        ),
{
}

impl Game {
    /// The complete state of a freshly constructed game: an empty board, a
    /// fresh score at the mode's starting level, the countdown anchored at
    /// the given clock reading, and the first piece of the seed's bag
    /// already spawned, with the rest of the two-shuffle queue behind it.
    pub open spec fn spec_fresh_game(g: Game, mode: GameMode, seed: u64, now_ms: u64) -> bool {
        &&& g.board.wf()
        &&& g.board.spec_is_empty()
        &&& g.current_piece == Some(spec_spawn_piece(Bag::spec_with_seed(seed).0[0]))
        &&& g.hold_piece is None
        &&& g.spec_hold_used() == false
        &&& g.spec_bag().upcoming() == Bag::spec_with_seed(seed).0.drop_first()
        &&& g.spec_bag().rng() == Bag::spec_with_seed(seed).1
        &&& g.spec_bag().drawn() == seq![Bag::spec_with_seed(seed).0[0]]
        &&& g.score == (Score {
            points: 0u64,
            level: mode.spec_starting_level(),
            lines: 0u32,
            combo: -1i32,
            back_to_back: false,
        })
        &&& g.state == GameState::Countdown(3u8)
        &&& g.mode_state == (ModeState {
            mode,
            start_ms: None::<u64>,
            elapsed_ms: 0u64,
            target_lines: crate::mode::SPRINT_TARGET_LINES,
            time_limit_ms: crate::mode::ULTRA_TIME_LIMIT_MS,
        })
        &&& g.spec_last_fall_ms() == now_ms
        &&& g.spec_lock_timer_ms() is None
        &&& g.spec_lock_resets() == 0
        &&& g.spec_lowest_row() == i32::MAX
        &&& g.last_action is None
        &&& g.spec_soft_drop_distance() == 0
        &&& g.spec_countdown_start_ms() == Some(now_ms)
        &&& g.piece_just_locked == false
        &&& g.last_clear_info is None
    }

    /// Create a new game with the specified mode and seed (for multiplayer:
    /// the seed fully determines the piece sequence) at a clock reading.
    #[verifier::rlimit(100)]
    #[verifier::spinoff_prover]
    pub fn with_seed(mode: GameMode, seed: u64, now_ms: u64) -> (g: Game)
        ensures
            g.wf(),
            Game::spec_fresh_game(g, mode, seed, now_ms),
    {
        let mut bag = Bag::with_seed(seed);
        let first_piece = bag.next();
        let mut score = Score::new();
        score.level = mode.starting_level();

        let board = Board::new();
        let current = Piece::new(first_piece);
        proof {
            lemma_spawn_valid_on_empty(board, first_piece);
            assert(current == spec_spawn_piece(first_piece));
        }
        Game {
            board,
            current_piece: Some(current),
            hold_piece: None,
            hold_used: false,
            bag,
            score,
            state: GameState::Countdown(3),
            mode_state: ModeState::new(mode),
            last_fall_ms: now_ms,
            lock_timer_ms: None,
            lock_resets: 0,
            lowest_row: i32::MAX,
            last_action: None,
            soft_drop_distance: 0,
            countdown_start_ms: Some(now_ms),
            piece_just_locked: false,
            last_clear_info: None,
        }
    }

    /// Create a new game with the specified mode, a fresh random seed and
    /// a clock reading: some seed's fresh game, with the chosen mode and
    /// the countdown anchored at the clock reading.
    pub fn new(mode: GameMode, now_ms: u64) -> (g: Game)
        ensures
            g.wf(),
            exists|seed: u64| #[trigger] Game::spec_fresh_game(g, mode, seed, now_ms),
    {
        let seed = crate::bag::random_seed();
        let g = Game::with_seed(mode, seed, now_ms);
        proof {
            assert(Game::spec_fresh_game(g, mode, seed, now_ms));
        }
        g
    }

    /// Get the current game mode.
    pub fn mode(&self) -> (m: GameMode)
        ensures
            m == self.mode_state.mode,
    {
        self.mode_state.mode
    }

    /// Get a preview of the next pieces, up to the fixed preview depth.
    pub fn preview(&self) -> (r: Vec<TetrominoType>)
        ensures
            r@ == self.spec_bag().upcoming().take(
                if 5 <= self.spec_bag().upcoming().len() {
                    5int
                } else {
                    self.spec_bag().upcoming().len() as int
                },
            ),
    {
        self.bag.preview(5)
    }

    /// Process an input action at a clock reading.
    pub fn process_action(&mut self, action: Action, now_ms: u64)
        requires
            old(self).wf(),
        ensures
            final(self).wf(),
            Game::rel_process_action(*old(self), action, now_ms, *final(self)),
    {
        match self.state {
            GameState::Countdown(_) => {
                // Only Quit is honored during the countdown
                if matches!(action, Action::Quit) {
                    self.state = GameState::GameOver;
                }
            },
            GameState::Paused => {
                if matches!(action, Action::Pause) {
                    self.state = GameState::Playing;
                    self.last_fall_ms = now_ms;
                } else if matches!(action, Action::Quit) {
                    self.state = GameState::GameOver;
                }
            },
            GameState::Playing => match action {
                Action::MoveLeft => self.do_move_left(now_ms),
                Action::MoveRight => self.do_move_right(now_ms),
                Action::SoftDrop => self.do_soft_drop(now_ms),
                Action::HardDrop => self.do_hard_drop(now_ms),
                Action::RotateCW => self.do_rotate(RotationDirection::Clockwise, now_ms),
                Action::RotateCCW => self.do_rotate(RotationDirection::CounterClockwise, now_ms),
                Action::Hold => self.do_hold(now_ms),
                Action::Pause => {
                    self.state = GameState::Paused;
                },
                Action::Quit => {
                    self.state = GameState::GameOver;
                },
            },
            GameState::GameOver => {},
            GameState::Victory => {},
        }
    }

    fn do_move_left(&mut self, now_ms: u64)
        requires
            old(self).wf(),
        ensures
            final(self).wf(),
            Game::rel_move(*old(self), now_ms, *final(self), 0i32, -1i32),
    {
        if let Some(piece0) = self.current_piece {
            let mut p = piece0;
            if p.move_left(&self.board) {
                self.current_piece = Some(p);
                self.try_reset_lock(now_ms);
            }
        }
    }

    fn do_move_right(&mut self, now_ms: u64)
        requires
            old(self).wf(),
        ensures
            final(self).wf(),
            Game::rel_move(*old(self), now_ms, *final(self), 0i32, 1i32),
    {
        if let Some(piece0) = self.current_piece {
            let mut p = piece0;
            if p.move_right(&self.board) {
                self.current_piece = Some(p);
                self.try_reset_lock(now_ms);
            }
        }
    }

    fn do_rotate(&mut self, direction: RotationDirection, now_ms: u64)
        requires
            old(self).wf(),
        ensures
            final(self).wf(),
            Game::rel_rotate(*old(self), now_ms, *final(self), direction),
    {
        if let Some(piece0) = self.current_piece {
            let mut p = piece0;
            if p.rotate(direction, &self.board) {
                self.current_piece = Some(p);
                self.try_reset_lock(now_ms);
            }
        }
    }

    fn do_soft_drop(&mut self, now_ms: u64)
        requires
            old(self).wf(),
        ensures
            final(self).wf(),
            Game::rel_soft_drop(*old(self), now_ms, *final(self)),
    {
        if let Some(piece0) = self.current_piece {
            let mut p = piece0;
            if p.move_down(&self.board) {
                self.current_piece = Some(p);
                self.soft_drop_distance = self.soft_drop_distance.saturating_add(1);
                self.last_fall_ms = now_ms;
                // Reset lock timer if we moved down
                self.lock_timer_ms = None;
            }
        }
    }

    fn do_hard_drop(&mut self, now_ms: u64)
        requires
            old(self).wf(),
        ensures
            final(self).wf(),
            Game::rel_hard_drop(*old(self), now_ms, *final(self)),
    {
        if let Some(piece0) = self.current_piece {
            let mut p = piece0;
            let distance = p.hard_drop(&self.board);
            self.score.add_hard_drop(distance as u32);
            self.current_piece = Some(p);
            self.lock_piece(now_ms);
            proof {
                let pre = *old(self);
                let landed = p;
                assert(piece0.spec_landing_ensures(piece0.row, landed.row, pre.board));
                assert(Game::rel_lock(
                    pre,
                    landed,
                    pre.score.spec_add_hard_drop((piece0.row - landed.row) as u32),
                    now_ms,
                    *self,
                ));
            }
        }
    }

    fn do_hold(&mut self, now_ms: u64)
        requires
            old(self).wf(),
        ensures
            final(self).wf(),
            Game::rel_hold(*old(self), now_ms, *final(self)),
    {
        if self.hold_used {
            return ;
        }
        let current = match self.current_piece {
            Some(c) => c,
            None => {
                return ;
            },
        };
        self.current_piece = None;

        let next_piece = match self.hold_piece {
            Some(held) => {
                self.hold_piece = Some(current.piece_type);
                Piece::new(held)
            },
            None => {
                self.hold_piece = Some(current.piece_type);
                Piece::new(self.bag.next())
            },
        };
        proof {
            assert(next_piece == spec_spawn_piece(next_piece.piece_type));
        }

        // Check if the replacement piece can spawn
        if !self.board.are_positions_valid(&next_piece.block_positions()) {
            self.state = GameState::GameOver;
            return ;
        }

        self.current_piece = Some(next_piece);
        self.reset_piece_state(now_ms);
        self.hold_used = true;
    }

    /// Try to reset the lock delay (limited resets per piece).
    fn try_reset_lock(&mut self, now_ms: u64)
        requires
            old(self).wf(),
            old(self).current_piece is Some,
        ensures
            final(self).wf(),
            Game::rel_after_reset(
                *old(self),
                old(self).current_piece.unwrap(),
                now_ms,
                *final(self),
            ),
    {
        if let Some(piece0) = self.current_piece {
            // Only reset if we reached a new low or the budget remains
            if piece0.row < self.lowest_row {
                self.lowest_row = piece0.row;
                self.lock_resets = 0;
            }
            if self.lock_resets < MAX_LOCK_RESETS && self.lock_timer_ms.is_some() {
                self.lock_timer_ms = Some(now_ms);
                self.lock_resets = self.lock_resets + 1;
            }
        }
    }

    /// Reset per-piece transient state.
    fn reset_piece_state(&mut self, now_ms: u64)
        ensures
            final(self).spec_hold_used() == false,
            final(self).spec_lock_timer_ms() is None,
            final(self).spec_lock_resets() == 0,
            final(self).spec_lowest_row() == i32::MAX,
            final(self).spec_last_fall_ms() == now_ms,
            final(self).spec_soft_drop_distance() == 0,
            final(self).board == old(self).board,
            final(self).current_piece == old(self).current_piece,
            final(self).hold_piece == old(self).hold_piece,
            final(self).spec_bag() == old(self).spec_bag(),
            final(self).score == old(self).score,
            final(self).state == old(self).state,
            final(self).mode_state == old(self).mode_state,
            final(self).last_action == old(self).last_action,
            final(self).spec_countdown_start_ms() == old(self).spec_countdown_start_ms(),
            final(self).piece_just_locked == old(self).piece_just_locked,
            final(self).last_clear_info == old(self).last_clear_info,
    {
        self.hold_used = false;
        self.lock_timer_ms = None;
        self.lock_resets = 0;
        self.lowest_row = i32::MAX;
        self.last_fall_ms = now_ms;
        self.soft_drop_distance = 0;
    }

    /// Detect a T-spin of a just-locked piece against the current (locked)
    /// board. Returns Some(true) for a full T-spin, Some(false) for a mini
    /// T-spin, None for no T-spin.
    pub fn detect_t_spin(&self, piece: &Piece) -> (r: Option<bool>)
        requires
            self.board.wf(),
            piece.wf(),
        ensures
            r == spec_detect_t_spin(self.board.grid(), *piece),
    {
        if !piece.is_t_piece() || piece.last_kick == 0 {
            return None;
        }

        // The four diagonal neighbors around the T piece pivot
        let filled_0 = self.corner_filled(piece.row + 1, piece.col - 1);
        let filled_1 = self.corner_filled(piece.row + 1, piece.col + 1);
        let filled_2 = self.corner_filled(piece.row - 1, piece.col - 1);
        let filled_3 = self.corner_filled(piece.row - 1, piece.col + 1);

        let filled_count = (if filled_0 {
            1usize
        } else {
            0usize
        }) + (if filled_1 {
            1usize
        } else {
            0usize
        }) + (if filled_2 {
            1usize
        } else {
            0usize
        }) + (if filled_3 {
            1usize
        } else {
            0usize
        });

        if filled_count >= 3 {
            // Front corners by where the T points
            let (front_a, front_b) = match piece.rotation {
                Rotation::North => (filled_2, filled_3),
                Rotation::East => (filled_1, filled_3),
                Rotation::South => (filled_0, filled_1),
                Rotation::West => (filled_0, filled_2),
            };
            if front_a && front_b {
                Some(true)
            } else {
                // The final wall-kick entry always counts as a full T-spin
                if piece.last_kick == 5 {
                    Some(true)
                } else {
                    Some(false)
                }
            }
        } else {
            None
        }
    }

    /// Whether a diagonal neighbor cell is occupied or out of bounds.
    fn corner_filled(&self, row: i32, col: i32) -> (r: bool)
        requires
            self.board.wf(),
        ensures
            r == spec_corner_filled(self.board.grid(), row as int, col as int),
    {
        match self.board.get(row, col) {
            Some(cell) => cell.is_filled(),
            None => true,
        }
    }

    /// Lock the current piece: bank soft-drop points, commit the cells,
    /// classify T-spins, clear lines, score or reset the combo, fill the
    /// clear outbox, and deal the next piece - or end the game on a blocked
    /// spawn or a block out.
    fn lock_piece(&mut self, now_ms: u64)
        requires
            old(self).wf(),
            old(self).current_piece is Some,
        ensures
            final(self).wf(),
            Game::rel_lock(
                *old(self),
                old(self).current_piece.unwrap(),
                old(self).score,
                now_ms,
                *final(self),
            ),
            final(self).mode_state == old(self).mode_state,
    {
        let piece = self.current_piece.unwrap();
        self.current_piece = None;

        // Bank the accrued soft drop score
        self.score.add_soft_drop(self.soft_drop_distance);

        // Commit the piece onto the board
        let positions = piece.block_positions();
        self.board.lock_piece(&positions, piece.piece_type);

        // Detect T-spin on the locked grid, before clearing lines
        let is_t_spin = self.detect_t_spin(&piece);

        // Clear full lines and check for an all clear
        let lines_cleared = self.board.clear_lines();
        let all_clear = self.board.is_empty();

        // Track back-to-back before scoring updates it
        let was_back_to_back = self.score.back_to_back;

        if lines_cleared > 0 || is_t_spin.is_some() {
            let clear_type = match is_t_spin {
                Some(true) => ClearType::TSpin(lines_cleared as u8),
                Some(false) => ClearType::MiniTSpin(lines_cleared as u8),
                None => ClearType::Regular(lines_cleared as u8),
            };
            let action = self.score.add_clear(clear_type, all_clear);
            self.last_action = Some(action);

            // Store clear info for garbage calculation
            self.last_clear_info = Some(
                ClearInfo {
                    lines: lines_cleared as u8,
                    is_tspin: is_t_spin.is_some(),
                    combo: self.score.combo,
                    back_to_back: was_back_to_back && (lines_cleared == 4 || is_t_spin.is_some()),
                },
            );
        } else {
            self.score.reset_combo();
            self.last_action = None;
            self.last_clear_info = None;
        }

        // Flag that a piece was locked (for multiplayer sync)
        self.piece_just_locked = true;

        // Deal and spawn the next piece
        let next_type = self.bag.next();
        let next_piece = Piece::new(next_type);
        proof {
            assert(next_piece == spec_spawn_piece(next_type));
        }

        // Check for top out
        if !self.board.are_positions_valid(&next_piece.block_positions()) {
            self.state = GameState::GameOver;
            return ;
        }

        // Check for block out (any locked cell at or above the visible area)
        let mut block_out = false;
        let mut k: usize = 0;
        while k < 4
            invariant
                k <= 4,
                positions@.len() == 4,
                block_out == exists|i: int|
                    0 <= i < k && (#[trigger] positions@[i]).0 >= BOARD_HEIGHT,
            decreases 4 - k,
        {
            if positions[k].0 >= BOARD_HEIGHT as i32 {
                block_out = true;
            }
            k += 1;
        }
        if block_out {
            self.state = GameState::GameOver;
            return ;
        }

        self.current_piece = Some(next_piece);
        self.reset_piece_state(now_ms);
    }

    /// Update the game state for one frame at a clock reading.
    pub fn update(&mut self, now_ms: u64)
        requires
            old(self).wf(),
        ensures
            final(self).wf(),
            Game::rel_update(*old(self), now_ms, *final(self)),
    {
        // Handle countdown
        if let GameState::Countdown(count) = self.state {
            if let Some(start) = self.countdown_start_ms {
                let elapsed_s = now_ms.saturating_sub(start) / 1000;
                let new_count: u8 = if elapsed_s >= 3 {
                    0
                } else {
                    (3 - elapsed_s) as u8
                };
                if new_count == 0 {
                    self.state = GameState::Playing;
                    self.mode_state.start(now_ms);
                    self.last_fall_ms = now_ms;
                    self.countdown_start_ms = None;
                } else if new_count != count {
                    self.state = GameState::Countdown(new_count);
                }
            }
            return ;
        }

        if !matches!(self.state, GameState::Playing) {
            return ;
        }

        // Update the mode timer
        self.mode_state.update(now_ms);

        // Check for mode completion
        if self.mode_state.is_complete(self.score.lines) {
            match self.mode_state.mode {
                GameMode::Sprint => {
                    self.state = GameState::Victory;
                    return ;
                },
                GameMode::Ultra => {
                    // Time is up
                    self.state = GameState::GameOver;
                    return ;
                },
                GameMode::Marathon => {},
            }
        }

        let piece = match self.current_piece {
            Some(p) => p,
            None => {
                return ;
            },
        };

        // Check if the piece is on the ground
        proof {
            lemma_shape_bounds(piece.piece_type, piece.rotation);
            let p0 = piece.spec_block_positions()[0];
            assert(self.board.spec_is_valid_position(p0.0 as int, p0.1 as int));
        }
        let probe = Piece {
            piece_type: piece.piece_type,
            rotation: piece.rotation,
            row: piece.row - 1,
            col: piece.col,
            last_kick: 0,
        };
        let on_ground = !self.board.are_positions_valid(&probe.block_positions());
        proof {
            assert(probe.spec_block_positions() =~= piece.spec_moved(
                -1i32,
                0i32,
            ).spec_block_positions());
        }

        if on_ground {
            // Start or check the lock timer
            if let Some(lock_start) = self.lock_timer_ms {
                if now_ms.saturating_sub(lock_start) >= LOCK_DELAY_MS {
                    self.lock_piece(now_ms);
                }
            } else {
                self.lock_timer_ms = Some(now_ms);
            }
        } else {
            // Not on ground: clear the lock timer and apply gravity
            self.lock_timer_ms = None;
            let fall_interval = self.score.fall_speed_ms();
            if now_ms.saturating_sub(self.last_fall_ms) >= fall_interval {
                let mut p = piece;
                let moved = p.move_down(&self.board);
                proof {
                    assert(moved);
                }
                self.current_piece = Some(p);
                self.last_fall_ms = now_ms;
            }
        }
    }
}

/// A default game is a fresh Marathon round from a random seed, with the
/// clock anchored at reading zero.
impl Default for Game {
    fn default() -> (g: Game)
        ensures
            g.wf(),
            exists|seed: u64| #[trigger] Game::spec_fresh_game(g, GameMode::Marathon, seed, 0u64),
    {
        Game::new(GameMode::Marathon, 0)
    }
}

} // verus!
