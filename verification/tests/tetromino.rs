use tetrs::audio::{BgmTrack, Sfx};
use tetrs::tetromino::{PieceColor, Rotation, TetrominoType};

#[test]
fn test_all_kinds_distinct_colors() {
    let kinds = TetrominoType::all();
    assert_eq!(kinds.len(), 7);
    let colors: std::collections::HashSet<PieceColor> =
        kinds.iter().map(|k| k.color()).collect();
    assert_eq!(colors.len(), 7);
    assert_eq!(TetrominoType::T.color(), PieceColor::Magenta);
}

#[test]
fn test_shapes_have_four_cells() {
    for kind in TetrominoType::all() {
        for rot in [
            Rotation::North,
            Rotation::East,
            Rotation::South,
            Rotation::West,
        ] {
            assert_eq!(kind.shape(rot).len(), 4);
        }
    }
}

#[test]
fn test_o_piece_never_rotates() {
    let base = TetrominoType::O.shape(Rotation::North);
    for rot in [Rotation::East, Rotation::South, Rotation::West] {
        assert_eq!(TetrominoType::O.shape(rot), base);
    }
}

#[test]
fn test_rotation_cycle() {
    assert_eq!(Rotation::North.cw(), Rotation::East);
    assert_eq!(Rotation::East.cw(), Rotation::South);
    assert_eq!(Rotation::South.cw(), Rotation::West);
    assert_eq!(Rotation::West.cw(), Rotation::North);
    for rot in [
        Rotation::North,
        Rotation::East,
        Rotation::South,
        Rotation::West,
    ] {
        assert_eq!(rot.cw().ccw(), rot);
        assert_eq!(rot.ccw().cw(), rot);
    }
}

#[test]
fn test_spawn_positions() {
    assert_eq!(TetrominoType::I.spawn_position(), (0, 4));
    assert_eq!(TetrominoType::O.spawn_position(), (0, 4));
    assert_eq!(TetrominoType::T.spawn_position(), (1, 4));
}

#[test]
fn test_track_catalog() {
    assert_eq!(BgmTrack::all().len(), 4);
    assert_eq!(BgmTrack::Korobeiniki.name(), "Korobeiniki");
    assert_eq!(BgmTrack::KorobeinikiFast.name(), "Korobeiniki (Fast)");
    assert_eq!(BgmTrack::Korobeiniki.filename(), "Korobeiniki.wav");
    assert_eq!(Sfx::Quad.filename(), "quad.wav");
    // The triple clear reuses the single clear sound
    assert_eq!(Sfx::Triple.filename(), Sfx::Single.filename());
}
