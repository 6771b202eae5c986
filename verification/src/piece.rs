//! Active falling piece logic.

use vstd::prelude::*;

use crate::board::Board;
use crate::srs::{get_wall_kicks, spec_wall_kicks};
use crate::tetromino::{Rotation, RotationDirection, TetrominoType};

verus! {

/// Bound on pivot coordinates so that offset arithmetic never overflows an
/// `i32`. Far beyond anything a game can reach; purely a machine limit.
pub const COORD_LIMIT: i32 = 0x4000_0000;

/// An active falling piece.
#[derive(Debug, Clone, Copy, PartialEq, Eq, Structural)]
pub struct Piece {
    /// The type of tetromino.
    pub piece_type: TetrominoType,
    /// Current rotation state.
    pub rotation: Rotation,
    /// Position (row, col) of the piece's pivot point.
    /// Row 0 is bottom, increases upward.
    pub row: i32,
    pub col: i32,
    /// Which wall kick was used for the last rotation (for T-spin detection).
    /// 0 = no kick, 1-5 = kick index.
    pub last_kick: u8,
}

/// Every shape offset lies within 2 cells of the pivot.
pub proof fn lemma_shape_bounds(kind: TetrominoType, rotation: Rotation)
    ensures
        kind.spec_shape(rotation).len() == 4,
        forall|i: int|
            0 <= i < 4 ==> -2 <= (#[trigger] kind.spec_shape(rotation)[i]).0 <= 2 && -2
                <= kind.spec_shape(rotation)[i].1 <= 2,
{
}

impl Piece {
    /// Pivot coordinates are within the machine limit.
    pub open spec fn wf(self) -> bool {
        &&& -COORD_LIMIT <= self.row <= COORD_LIMIT
        &&& -COORD_LIMIT <= self.col <= COORD_LIMIT
    }

    /// The 4 absolute block positions of the piece's shape when its pivot
    /// stands at (row, col).
    pub open spec fn spec_positions_at(self, row: i32, col: i32) -> Seq<(i32, i32)> {
        self.piece_type.spec_shape(self.rotation).map_values(
            |o: (i32, i32)| (((row + o.0) as i32), ((col + o.1) as i32)),
        )
    }

    /// The 4 absolute block positions of the piece.
    pub open spec fn spec_block_positions(self) -> Seq<(i32, i32)> {
        self.spec_positions_at(self.row, self.col)
    }

    /// Create a new piece at its spawn position, above the visible area.
    pub fn new(piece_type: TetrominoType) -> (p: Piece)
        ensures
            p.wf(),
            p.piece_type == piece_type,
            p.rotation == Rotation::North,
            p.row == 20 + piece_type.spec_spawn_position().0,
            p.col == piece_type.spec_spawn_position().1,
            p.last_kick == 0,
    {
        let (row, col) = piece_type.spawn_position();
        Piece { piece_type, rotation: Rotation::North, row: 20 + row, col, last_kick: 0 }
    }

    /// The absolute positions of all 4 blocks, at a given pivot.
    fn positions_at(&self, row: i32, col: i32) -> (r: [(i32, i32); 4])
        requires
            -COORD_LIMIT - 4 <= row <= COORD_LIMIT + 4,
            -COORD_LIMIT - 4 <= col <= COORD_LIMIT + 4,
        ensures
            r@ == self.spec_positions_at(row, col),
    {
        proof {
            lemma_shape_bounds(self.piece_type, self.rotation);
        }
        let offsets = self.piece_type.shape(self.rotation);
        let r = [
            (row + offsets[0].0, col + offsets[0].1),
            (row + offsets[1].0, col + offsets[1].1),
            (row + offsets[2].0, col + offsets[2].1),
            (row + offsets[3].0, col + offsets[3].1),
        ];
        proof {
            assert(r@ =~= self.spec_positions_at(row, col));
        }
        r
    }

    /// Get the absolute positions of all 4 blocks.
    pub fn block_positions(&self) -> (r: [(i32, i32); 4])
        requires
            self.wf(),
        ensures
            r@ == self.spec_block_positions(),
    {
        self.positions_at(self.row, self.col)
    }

    /// The piece moved by a (row, col) delta, with kick tracking reset.
    pub open spec fn spec_moved(self, dr: i32, dc: i32) -> Piece {
        Piece {
            row: (self.row + dr) as i32,
            col: (self.col + dc) as i32,
            last_kick: 0,
            ..self
        }
    }

    /// A move to a delta succeeds iff the moved piece's blocks are all valid
    /// on the board; on success the piece moves and `last_kick` resets,
    /// on failure the piece is unchanged.
    pub open spec fn spec_move_ensures(self, moved: Self, board: Board, r: bool, dr: i32, dc: i32) -> bool {
        &&& r == board.spec_positions_valid(self.spec_moved(dr, dc).spec_block_positions())
        &&& (r ==> moved == self.spec_moved(dr, dc))
        &&& (!r ==> moved == self)
    }

    /// Try to move left, returns true if successful.
    /// A plain move resets `last_kick`, since it invalidates T-spin
    /// eligibility from a prior rotation.
    pub fn move_left(&mut self, board: &Board) -> (r: bool)
        requires
            old(self).wf(),
            board.wf(),
        ensures
            final(self).wf(),
            old(self).spec_move_ensures(*final(self), *board, r, 0i32, -1i32),
    {
        self.try_move(board, 0, -1)
    }

    /// Try to move right, returns true if successful.
    pub fn move_right(&mut self, board: &Board) -> (r: bool)
        requires
            old(self).wf(),
            board.wf(),
        ensures
            final(self).wf(),
            old(self).spec_move_ensures(*final(self), *board, r, 0i32, 1i32),
    {
        self.try_move(board, 0, 1)
    }

    /// Try to move down, returns true if successful.
    pub fn move_down(&mut self, board: &Board) -> (r: bool)
        requires
            old(self).wf(),
            board.wf(),
        ensures
            final(self).wf(),
            old(self).spec_move_ensures(*final(self), *board, r, -1i32, 0i32),
    {
        self.try_move(board, -1, 0)
    }

    /// Speculatively offset the pivot, validate, revert on failure.
    fn try_move(&mut self, board: &Board, dr: i32, dc: i32) -> (r: bool)
        requires
            old(self).wf(),
            board.wf(),
            -1 <= dr <= 0,
            -1 <= dc <= 1,
        ensures
            final(self).wf(),
            old(self).spec_move_ensures(*final(self), *board, r, dr, dc),
    {
        let new_row = self.row + dr;
        let new_col = self.col + dc;
        let positions = self.positions_at(new_row, new_col);
        if board.are_positions_valid(&positions) {
            self.row = new_row;
            self.col = new_col;
            self.last_kick = 0;
            proof {
                lemma_shape_bounds(self.piece_type, self.rotation);
                let p0 = self.spec_block_positions()[0];
                assert(board.spec_is_valid_position(p0.0 as int, p0.1 as int));
            }
            true
        } else {
            false
        }
    }

    /// The target rotation of a direction: one step through the 4-cycle.
    pub open spec fn spec_target_rotation(self, direction: RotationDirection) -> Rotation {
        match direction {
            RotationDirection::Clockwise => self.rotation.spec_cw(),
            RotationDirection::CounterClockwise => self.rotation.spec_ccw(),
        }
    }

    /// The piece as placed by kick index `i` of a rotation attempt:
    /// translated by the kick offset, turned to the target rotation, with
    /// the 1-based kick index recorded for T-spin classification.
    pub open spec fn spec_kicked(self, direction: RotationDirection, i: int) -> Piece {
        let kick = spec_wall_kicks(self.piece_type, self.rotation, direction)[i];
        Piece {
            rotation: self.spec_target_rotation(direction),
            row: (self.row + kick.0) as i32,
            col: (self.col + kick.1) as i32,
            last_kick: (i + 1) as u8,
            ..self
        }
    }

    /// The first kick index (0-based) whose placement is fully valid on the
    /// board, if any, searching from index `i` upward.
    pub open spec fn spec_first_valid_kick(
        self,
        direction: RotationDirection,
        board: Board,
        i: int,
    ) -> Option<int>
        decreases 5 - i,
    {
        if i < 0 || i >= 5 {
            None
        } else if board.spec_positions_valid(
            self.spec_kicked(direction, i).spec_block_positions(),
        ) {
            Some(i)
        } else {
            self.spec_first_valid_kick(direction, board, i + 1)
        }
    }

    /// What a rotation attempt does: the kicks of the (kind, from-rotation,
    /// direction) table are tried in order and the first fully valid
    /// placement is taken; if none fits (or the pivot stands at the machine
    /// coordinate limit) the piece is left unchanged.
    pub open spec fn spec_rotate(self, direction: RotationDirection, board: Board) -> Option<
        Piece,
    > {
        if self.row > COORD_LIMIT - 2 {
            None
        } else {
            match self.spec_first_valid_kick(direction, board, 0) {
                Some(i) => Some(self.spec_kicked(direction, i)),
                None => None,
            }
        }
    }

    /// Try to rotate, using SRS wall kicks. The identity offset is always
    /// tried first; the 1-based index of the accepted kick is recorded in
    /// `last_kick`. On failure the piece is fully restored.
    pub fn rotate(&mut self, direction: RotationDirection, board: &Board) -> (r: bool)
        requires
            old(self).wf(),
            board.wf(),
        ensures
            final(self).wf(),
            r == old(self).spec_rotate(direction, *board) is Some,
            r ==> Some(*final(self)) == old(self).spec_rotate(direction, *board),
            r ==> board.spec_positions_valid(final(self).spec_block_positions()),
            !r ==> *final(self) == *old(self),
    {
        // Guard far outside any reachable position: a rising kick must not
        // push the pivot past the coordinate limit.
        if self.row > COORD_LIMIT - 2 {
            return false;
        }

        let new_rotation = match direction {
            RotationDirection::Clockwise => self.rotation.cw(),
            RotationDirection::CounterClockwise => self.rotation.ccw(),
        };

        let kicks = get_wall_kicks(self.piece_type, self.rotation, direction);

        let ghost orig = *self;
        let mut kick_idx: usize = 0;
        while kick_idx < 5
            invariant
                *self == orig,
                orig == *old(self),
                orig.wf(),
                board.wf(),
                orig.row <= COORD_LIMIT - 2,
                kick_idx <= 5,
                kicks@ == spec_wall_kicks(orig.piece_type, orig.rotation, direction),
                new_rotation == orig.spec_target_rotation(direction),
                orig.spec_first_valid_kick(direction, *board, 0)
                    == orig.spec_first_valid_kick(direction, *board, kick_idx as int),
            decreases 5 - kick_idx,
        {
            let (kick_row, kick_col) = kicks[kick_idx];
            let ghost cand = orig.spec_kicked(direction, kick_idx as int);
            let cand_row = self.row + kick_row;
            let cand_col = self.col + kick_col;
            let turned = Piece {
                piece_type: self.piece_type,
                rotation: new_rotation,
                row: self.row,
                col: self.col,
                last_kick: self.last_kick,
            };
            let positions = turned.positions_at(cand_row, cand_col);
            proof {
                assert(positions@ == cand.spec_block_positions());
            }
            if board.are_positions_valid(&positions) {
                self.row = cand_row;
                self.col = cand_col;
                self.rotation = new_rotation;
                self.last_kick = (kick_idx + 1) as u8;
                proof {
                    lemma_shape_bounds(cand.piece_type, cand.rotation);
                    let p0 = cand.spec_block_positions()[0];
                    assert(board.spec_is_valid_position(p0.0 as int, p0.1 as int));
                    assert(*self == cand);
                    assert(orig.spec_first_valid_kick(direction, *board, kick_idx as int)
                        == Some(kick_idx as int));
                    assert(orig.spec_rotate(direction, *board) == Some(cand));
                }
                return true;
            }
            kick_idx += 1;
        }
        false
    }

    /// The landing row of the piece's current column and rotation: the row
    /// it would rest on if dropped straight down from `from_row`.
    pub open spec fn spec_landing_ensures(self, from_row: i32, g: i32, board: Board) -> bool {
        &&& g <= from_row
        &&& !board.spec_positions_valid(self.spec_positions_at((g - 1) as i32, self.col))
        &&& forall|r: int|
            g <= r < from_row ==> board.spec_positions_valid(
                self.spec_positions_at(#[trigger] (r as i32), self.col),
            )
    }

    /// Hard drop - move down as far as possible and return distance dropped.
    pub fn hard_drop(&mut self, board: &Board) -> (distance: i32)
        requires
            old(self).wf(),
            board.wf(),
        ensures
            final(self).wf(),
            final(self).piece_type == old(self).piece_type,
            final(self).rotation == old(self).rotation,
            final(self).col == old(self).col,
            distance == old(self).row - final(self).row,
            distance >= 0,
            old(self).spec_landing_ensures(old(self).row, final(self).row, *board),
            distance > 0 ==> final(self).last_kick == 0,
            distance > 0 ==> board.spec_positions_valid(final(self).spec_block_positions()),
            distance == 0 ==> *final(self) == *old(self),
    {
        let ghost orig = *self;
        let mut distance: i32 = 0;
        loop
            invariant
                self.wf(),
                board.wf(),
                orig == *old(self),
                orig.wf(),
                self.piece_type == orig.piece_type,
                self.rotation == orig.rotation,
                self.col == orig.col,
                distance == orig.row - self.row,
                distance >= 0,
                distance > 0 ==> self.last_kick == 0,
                distance > 0 ==> board.spec_positions_valid(self.spec_block_positions()),
                distance == 0 ==> *self == orig,
                forall|r: int|
                    self.row <= r < orig.row ==> board.spec_positions_valid(
                        orig.spec_positions_at(#[trigger] (r as i32), orig.col),
                    ),
            decreases self.row + COORD_LIMIT + 4,
        {
            let moved = self.move_down(board);
            if !moved {
                proof {
                    lemma_shape_bounds(self.piece_type, self.rotation);
                }
                proof {
                    assert(orig.spec_positions_at((self.row - 1) as i32, orig.col)
                        =~= self.spec_moved(-1i32, 0i32).spec_block_positions());
                }
                return distance;
            }
            proof {
                lemma_shape_bounds(self.piece_type, self.rotation);
                let p0 = self.spec_block_positions()[0];
                assert(board.spec_is_valid_position(p0.0 as int, p0.1 as int));
                assert(orig.spec_positions_at(self.row, orig.col)
                    =~= self.spec_block_positions());
            }
            distance += 1;
        }
    }

    /// Get the ghost piece landing row (where the piece would land),
    /// a pure query that does not move the piece.
    pub fn ghost_row(&self, board: &Board) -> (g: i32)
        requires
            self.wf(),
            board.wf(),
        ensures
            self.spec_landing_ensures(self.row, g, *board),
    {
        let mut ghost_row: i32 = self.row;
        loop
            invariant
                self.wf(),
                board.wf(),
                -COORD_LIMIT - 1 <= ghost_row <= self.row,
                forall|r: int|
                    ghost_row <= r < self.row ==> board.spec_positions_valid(
                        self.spec_positions_at(#[trigger] (r as i32), self.col),
                    ),
            decreases ghost_row + COORD_LIMIT + 4,
        {
            let next = ghost_row - 1;
            let positions = self.positions_at(next, self.col);
            if !board.are_positions_valid(&positions) {
                return ghost_row;
            }
            proof {
                lemma_shape_bounds(self.piece_type, self.rotation);
                let p0 = self.spec_positions_at(next, self.col)[0];
                assert(board.spec_is_valid_position(p0.0 as int, p0.1 as int));
            }
            ghost_row = next;
        }
    }

    /// Check if this is a T piece (for T-spin detection).
    pub fn is_t_piece(&self) -> (r: bool)
        ensures
            r == (self.piece_type == TetrominoType::T),
    {
        matches!(self.piece_type, TetrominoType::T)
    }
}

} // verus!
