use tetrs::srs::get_wall_kicks;
use tetrs::tetromino::{Rotation, RotationDirection, TetrominoType};

#[test]
fn test_kick_count() {
    // All rotations should return exactly 5 kicks
    for piece in TetrominoType::all() {
        for from in [
            Rotation::North,
            Rotation::East,
            Rotation::South,
            Rotation::West,
        ] {
            for dir in [RotationDirection::Clockwise, RotationDirection::CounterClockwise] {
                let kicks = get_wall_kicks(piece, from, dir);
                assert_eq!(kicks.len(), 5);
            }
        }
    }
}

#[test]
fn test_first_kick_is_identity() {
    // First kick attempt should always be (0, 0) - no offset
    for piece in TetrominoType::all() {
        for from in [
            Rotation::North,
            Rotation::East,
            Rotation::South,
            Rotation::West,
        ] {
            for dir in [RotationDirection::Clockwise, RotationDirection::CounterClockwise] {
                let kicks = get_wall_kicks(piece, from, dir);
                assert_eq!(kicks[0], (0, 0));
            }
        }
    }
}

#[test]
fn test_o_piece_kicks_are_identity() {
    for from in [
        Rotation::North,
        Rotation::East,
        Rotation::South,
        Rotation::West,
    ] {
        for dir in [RotationDirection::Clockwise, RotationDirection::CounterClockwise] {
            let kicks = get_wall_kicks(TetrominoType::O, from, dir);
            assert_eq!(kicks, [(0, 0); 5]);
        }
    }
}

#[test]
fn test_i_piece_has_own_table() {
    let i_kicks = get_wall_kicks(
        TetrominoType::I,
        Rotation::North,
        RotationDirection::Clockwise,
    );
    let t_kicks = get_wall_kicks(
        TetrominoType::T,
        Rotation::North,
        RotationDirection::Clockwise,
    );
    assert_eq!(i_kicks, [(0, 0), (0, -2), (0, 1), (1, -2), (-2, 1)]);
    assert_eq!(t_kicks, [(0, 0), (0, -1), (1, -1), (-2, 0), (-2, -1)]);
    assert_ne!(i_kicks, t_kicks);
}
