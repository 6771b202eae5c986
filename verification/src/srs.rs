//! Super Rotation System (SRS) wall kick data.
//!
//! SRS defines the wall kicks attempted when rotating a piece.
//! If a rotation would cause collision, these offsets are tried in order.

use vstd::prelude::*;

use crate::tetromino::{Rotation, RotationDirection, TetrominoType};

verus! {

/// The ordered kick list for a rotation attempt: always 5 entries, and the
/// first entry is always the identity offset (0, 0).
pub open spec fn spec_wall_kicks(
    piece_type: TetrominoType,
    from: Rotation,
    direction: RotationDirection,
) -> Seq<(i32, i32)> {
    match piece_type {
        TetrominoType::O => seq![
            (0i32, 0i32),
            (0i32, 0i32),
            (0i32, 0i32),
            (0i32, 0i32),
            (0i32, 0i32),
        ],
        TetrominoType::I => spec_i_piece_kicks(from, direction),
        _ => spec_jlstz_kicks(from, direction),
    }
}

/// Kick table shared by the J, L, S, T and Z pieces, in a row-up coordinate
/// system (row offsets are negated relative to the usual row-down tables).
pub open spec fn spec_jlstz_kicks(from: Rotation, direction: RotationDirection) -> Seq<
    (i32, i32),
> {
    match (from, direction) {
        (Rotation::North, RotationDirection::Clockwise) => seq![
            (0i32, 0i32),
            (0i32, -1i32),
            (1i32, -1i32),
            (-2i32, 0i32),
            (-2i32, -1i32),
        ],
        (Rotation::East, RotationDirection::CounterClockwise) => seq![
            (0i32, 0i32),
            (0i32, 1i32),
            (-1i32, 1i32),
            (2i32, 0i32),
            (2i32, 1i32),
        ],
        (Rotation::East, RotationDirection::Clockwise) => seq![
            (0i32, 0i32),
            (0i32, 1i32),
            (-1i32, 1i32),
            (2i32, 0i32),
            (2i32, 1i32),
        ],
        (Rotation::South, RotationDirection::CounterClockwise) => seq![
            (0i32, 0i32),
            (0i32, -1i32),
            (1i32, -1i32),
            (-2i32, 0i32),
            (-2i32, -1i32),
        ],
        (Rotation::South, RotationDirection::Clockwise) => seq![
            (0i32, 0i32),
            (0i32, 1i32),
            (1i32, 1i32),
            (-2i32, 0i32),
            (-2i32, 1i32),
        ],
        (Rotation::West, RotationDirection::CounterClockwise) => seq![
            (0i32, 0i32),
            (0i32, -1i32),
            (-1i32, -1i32),
            (2i32, 0i32),
            (2i32, -1i32),
        ],
        (Rotation::West, RotationDirection::Clockwise) => seq![
            (0i32, 0i32),
            (0i32, -1i32),
            (-1i32, -1i32),
            (2i32, 0i32),
            (2i32, -1i32),
        ],
        (Rotation::North, RotationDirection::CounterClockwise) => seq![
            (0i32, 0i32),
            (0i32, 1i32),
            (1i32, 1i32),
            (-2i32, 0i32),
            (-2i32, 1i32),
        ],
    }
}

/// Kick table of the I piece, which differs from the shared table,
/// in the same row-up coordinate system.
pub open spec fn spec_i_piece_kicks(from: Rotation, direction: RotationDirection) -> Seq<
    (i32, i32),
> {
    match (from, direction) {
        (Rotation::North, RotationDirection::Clockwise) => seq![
            (0i32, 0i32),
            (0i32, -2i32),
            (0i32, 1i32),
            (1i32, -2i32),
            (-2i32, 1i32),
        ],
        (Rotation::East, RotationDirection::CounterClockwise) => seq![
            (0i32, 0i32),
            (0i32, 2i32),
            (0i32, -1i32),
            (-1i32, 2i32),
            (2i32, -1i32),
        ],
        (Rotation::East, RotationDirection::Clockwise) => seq![
            (0i32, 0i32),
            (0i32, -1i32),
            (0i32, 2i32),
            (-1i32, -1i32),
            (2i32, 2i32),
        ],
        (Rotation::South, RotationDirection::CounterClockwise) => seq![
            (0i32, 0i32),
            (0i32, 1i32),
            (0i32, -2i32),
            (1i32, 1i32),
            (-2i32, -2i32),
        ],
        (Rotation::South, RotationDirection::Clockwise) => seq![
            (0i32, 0i32),
            (0i32, 2i32),
            (0i32, -1i32),
            (1i32, 2i32),
            (-2i32, -1i32),
        ],
        (Rotation::West, RotationDirection::CounterClockwise) => seq![
            (0i32, 0i32),
            (0i32, -2i32),
            (0i32, 1i32),
            (-1i32, -2i32),
            (2i32, 1i32),
        ],
        (Rotation::West, RotationDirection::Clockwise) => seq![
            (0i32, 0i32),
            (0i32, 1i32),
            (0i32, -2i32),
            (1i32, 1i32),
            (-2i32, -2i32),
        ],
        (Rotation::North, RotationDirection::CounterClockwise) => seq![
            (0i32, 0i32),
            (0i32, -1i32),
            (0i32, 2i32),
            (-1i32, -1i32),
            (2i32, 2i32),
        ],
    }
}

/// Every kick list has exactly 5 entries and starts with the identity
/// offset (0, 0), so the in-place rotation is always the first attempt.
pub proof fn lemma_first_kick_is_identity(
    piece_type: TetrominoType,
    from: Rotation,
    direction: RotationDirection,
)
    ensures
        spec_wall_kicks(piece_type, from, direction).len() == 5,
        spec_wall_kicks(piece_type, from, direction)[0] == (0i32, 0i32),
{
}

/// Get wall kick offsets for a rotation attempt.
/// Returns the 5 (row_offset, col_offset) pairs to try, in order.
pub fn get_wall_kicks(
    piece_type: TetrominoType,
    from: Rotation,
    direction: RotationDirection,
) -> (r: [(i32, i32); 5])
    ensures
        r@ == spec_wall_kicks(piece_type, from, direction),
        r@[0] == (0i32, 0i32),
{
    let r: [(i32, i32); 5] = match piece_type {
        TetrominoType::O => {
            // O piece never meaningfully rotates; identity kicks only
            [(0, 0), (0, 0), (0, 0), (0, 0), (0, 0)]
        },
        TetrominoType::I => i_piece_kicks(from, direction),
        _ => jlstz_kicks(from, direction),
    };
    proof {
        assert(r@ =~= spec_wall_kicks(piece_type, from, direction));
    }
    r
}

/// Wall kicks for J, L, S, T, Z pieces.
fn jlstz_kicks(from: Rotation, direction: RotationDirection) -> (r: [(i32, i32); 5])
    ensures
        r@ == spec_jlstz_kicks(from, direction),
{
    let r: [(i32, i32); 5] = match (from, direction) {
        (Rotation::North, RotationDirection::Clockwise) => [
            (0, 0),
            (0, -1),
            (1, -1),
            (-2, 0),
            (-2, -1),
        ],
        (Rotation::East, RotationDirection::CounterClockwise) => [
            (0, 0),
            (0, 1),
            (-1, 1),
            (2, 0),
            (2, 1),
        ],
        (Rotation::East, RotationDirection::Clockwise) => [
            (0, 0),
            (0, 1),
            (-1, 1),
            (2, 0),
            (2, 1),
        ],
        (Rotation::South, RotationDirection::CounterClockwise) => [
            (0, 0),
            (0, -1),
            (1, -1),
            (-2, 0),
            (-2, -1),
        ],
        (Rotation::South, RotationDirection::Clockwise) => [
            (0, 0),
            (0, 1),
            (1, 1),
            (-2, 0),
            (-2, 1),
        ],
        (Rotation::West, RotationDirection::CounterClockwise) => [
            (0, 0),
            (0, -1),
            (-1, -1),
            (2, 0),
            (2, -1),
        ],
        (Rotation::West, RotationDirection::Clockwise) => [
            (0, 0),
            (0, -1),
            (-1, -1),
            (2, 0),
            (2, -1),
        ],
        (Rotation::North, RotationDirection::CounterClockwise) => [
            (0, 0),
            (0, 1),
            (1, 1),
            (-2, 0),
            (-2, 1),
        ],
    };
    proof {
        assert(r@ =~= spec_jlstz_kicks(from, direction));
    }
    r
}

/// Wall kicks for the I piece (different from other pieces).
fn i_piece_kicks(from: Rotation, direction: RotationDirection) -> (r: [(i32, i32); 5])
    ensures
        r@ == spec_i_piece_kicks(from, direction),
{
    let r: [(i32, i32); 5] = match (from, direction) {
        (Rotation::North, RotationDirection::Clockwise) => [
            (0, 0),
            (0, -2),
            (0, 1),
            (1, -2),
            (-2, 1),
        ],
        (Rotation::East, RotationDirection::CounterClockwise) => [
            (0, 0),
            (0, 2),
            (0, -1),
            (-1, 2),
            (2, -1),
        ],
        (Rotation::East, RotationDirection::Clockwise) => [
            (0, 0),
            (0, -1),
            (0, 2),
            (-1, -1),
            (2, 2),
        ],
        (Rotation::South, RotationDirection::CounterClockwise) => [
            (0, 0),
            (0, 1),
            (0, -2),
            (1, 1),
            (-2, -2),
        ],
        (Rotation::South, RotationDirection::Clockwise) => [
            (0, 0),
            (0, 2),
            (0, -1),
            (1, 2),
            (-2, -1),
        ],
        (Rotation::West, RotationDirection::CounterClockwise) => [
            (0, 0),
            (0, -2),
            (0, 1),
            (-1, -2),
            (2, 1),
        ],
        (Rotation::West, RotationDirection::Clockwise) => [
            (0, 0),
            (0, 1),
            (0, -2),
            (1, 1),
            (-2, -2),
        ],
        (Rotation::North, RotationDirection::CounterClockwise) => [
            (0, 0),
            (0, -1),
            (0, 2),
            (-1, -1),
            (2, 2),
        ],
    };
    proof {
        assert(r@ =~= spec_i_piece_kicks(from, direction));
    }
    r
}

} // verus!
