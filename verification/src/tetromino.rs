//! Tetromino definitions and shapes.
//!
//! All 7 standard tetrominoes with their rotations using SRS
//! (Super Rotation System).

use vstd::prelude::*;

verus! {

/// Color tag of a tetromino, one per piece kind.
#[derive(Debug, Clone, Copy, PartialEq, Eq, Structural, Hash)]
pub enum PieceColor {
    Cyan,
    Yellow,
    Magenta,
    Green,
    Red,
    Blue,
    Orange,
}

/// The 7 tetromino types.
#[derive(Debug, Clone, Copy, PartialEq, Eq, Structural, Hash)]
pub enum TetrominoType {
    I,
    O,
    T,
    S,
    Z,
    J,
    L,
}

/// Rotation states (using SRS naming convention).
/// North is the spawn state; East is one clockwise step from North.
#[derive(Debug, Clone, Copy, PartialEq, Eq, Structural, Default)]
pub enum Rotation {
    #[default]
    North,
    East,
    South,
    West,
}

/// Direction for rotation.
#[derive(Debug, Clone, Copy, PartialEq, Eq, Structural)]
pub enum RotationDirection {
    Clockwise,
    CounterClockwise,
}

impl TetrominoType {
    /// Get the color tag for this tetromino.
    pub fn color(&self) -> (c: PieceColor)
        ensures
            c == self.spec_color(),
    {
        match self {
            TetrominoType::I => PieceColor::Cyan,
            TetrominoType::O => PieceColor::Yellow,
            TetrominoType::T => PieceColor::Magenta,
            TetrominoType::S => PieceColor::Green,
            TetrominoType::Z => PieceColor::Red,
            TetrominoType::J => PieceColor::Blue,
            TetrominoType::L => PieceColor::Orange,
        }
    }

    /// The color tag of each kind; distinct kinds have distinct colors.
    pub open spec fn spec_color(self) -> PieceColor {
        match self {
            TetrominoType::I => PieceColor::Cyan,
            TetrominoType::O => PieceColor::Yellow,
            TetrominoType::T => PieceColor::Magenta,
            TetrominoType::S => PieceColor::Green,
            TetrominoType::Z => PieceColor::Red,
            TetrominoType::J => PieceColor::Blue,
            TetrominoType::L => PieceColor::Orange,
        }
    }

    /// The fixed order of all 7 kinds, used to fill the bag.
    pub open spec fn all_kinds() -> Seq<TetrominoType> {
        seq![
            TetrominoType::I,
            TetrominoType::O,
            TetrominoType::T,
            TetrominoType::S,
            TetrominoType::Z,
            TetrominoType::J,
            TetrominoType::L,
        ]
    }

    /// Get all tetromino types, in the fixed fill order.
    pub fn all() -> (r: [TetrominoType; 7])
        ensures
            r@ == Self::all_kinds(),
    {
        let r = [
            TetrominoType::I,
            TetrominoType::O,
            TetrominoType::T,
            TetrominoType::S,
            TetrominoType::Z,
            TetrominoType::J,
            TetrominoType::L,
        ];
        proof {
            assert(r@ =~= Self::all_kinds());
        }
        r
    }

    /// The 4 cell offsets of a kind at a rotation, relative to the pivot.
    /// Row increases upward, column increases rightward.
    pub open spec fn spec_shape(self, rotation: Rotation) -> Seq<(i32, i32)> {
        match self {
            TetrominoType::I => match rotation {
                Rotation::North => seq![(0i32, -1i32), (0i32, 0i32), (0i32, 1i32), (0i32, 2i32)],
                Rotation::East => seq![(1i32, 1i32), (0i32, 1i32), (-1i32, 1i32), (-2i32, 1i32)],
                Rotation::South => seq![
                    (-1i32, -1i32),
                    (-1i32, 0i32),
                    (-1i32, 1i32),
                    (-1i32, 2i32),
                ],
                Rotation::West => seq![(1i32, 0i32), (0i32, 0i32), (-1i32, 0i32), (-2i32, 0i32)],
            },
            TetrominoType::O => seq![(0i32, 0i32), (0i32, 1i32), (-1i32, 0i32), (-1i32, 1i32)],
            TetrominoType::T => match rotation {
                Rotation::North => seq![(0i32, -1i32), (0i32, 0i32), (0i32, 1i32), (1i32, 0i32)],
                Rotation::East => seq![(1i32, 0i32), (0i32, 0i32), (-1i32, 0i32), (0i32, 1i32)],
                Rotation::South => seq![(0i32, -1i32), (0i32, 0i32), (0i32, 1i32), (-1i32, 0i32)],
                Rotation::West => seq![(1i32, 0i32), (0i32, 0i32), (-1i32, 0i32), (0i32, -1i32)],
            },
            TetrominoType::S => match rotation {
                Rotation::North => seq![(1i32, 0i32), (1i32, 1i32), (0i32, -1i32), (0i32, 0i32)],
                Rotation::East => seq![(1i32, 0i32), (0i32, 0i32), (0i32, 1i32), (-1i32, 1i32)],
                Rotation::South => seq![(0i32, 0i32), (0i32, 1i32), (-1i32, -1i32), (-1i32, 0i32)],
                Rotation::West => seq![(1i32, -1i32), (0i32, -1i32), (0i32, 0i32), (-1i32, 0i32)],
            },
            TetrominoType::Z => match rotation {
                Rotation::North => seq![(1i32, -1i32), (1i32, 0i32), (0i32, 0i32), (0i32, 1i32)],
                Rotation::East => seq![(1i32, 1i32), (0i32, 0i32), (0i32, 1i32), (-1i32, 0i32)],
                Rotation::South => seq![(0i32, -1i32), (0i32, 0i32), (-1i32, 0i32), (-1i32, 1i32)],
                Rotation::West => seq![(1i32, 0i32), (0i32, -1i32), (0i32, 0i32), (-1i32, -1i32)],
            },
            TetrominoType::J => match rotation {
                Rotation::North => seq![(1i32, -1i32), (0i32, -1i32), (0i32, 0i32), (0i32, 1i32)],
                Rotation::East => seq![(1i32, 0i32), (1i32, 1i32), (0i32, 0i32), (-1i32, 0i32)],
                Rotation::South => seq![(0i32, -1i32), (0i32, 0i32), (0i32, 1i32), (-1i32, 1i32)],
                Rotation::West => seq![(1i32, 0i32), (0i32, 0i32), (-1i32, 0i32), (-1i32, -1i32)],
            },
            TetrominoType::L => match rotation {
                Rotation::North => seq![(1i32, 1i32), (0i32, -1i32), (0i32, 0i32), (0i32, 1i32)],
                Rotation::East => seq![(1i32, 0i32), (0i32, 0i32), (-1i32, 0i32), (-1i32, 1i32)],
                Rotation::South => seq![(0i32, -1i32), (0i32, 0i32), (0i32, 1i32), (-1i32, -1i32)],
                Rotation::West => seq![(1i32, -1i32), (1i32, 0i32), (0i32, 0i32), (-1i32, 0i32)],
            },
        }
    }

    /// Get the shape offsets for this tetromino at a given rotation.
    /// Returns 4 (row, col) offsets relative to the piece's pivot.
    /// Row increases upward (matching display), col increases rightward.
    pub fn shape(&self, rotation: Rotation) -> (r: [(i32, i32); 4])
        ensures
            r@ == self.spec_shape(rotation),
    {
        let r: [(i32, i32); 4] = match self {
            TetrominoType::I => match rotation {
                Rotation::North => [(0, -1), (0, 0), (0, 1), (0, 2)],
                Rotation::East => [(1, 1), (0, 1), (-1, 1), (-2, 1)],
                Rotation::South => [(-1, -1), (-1, 0), (-1, 1), (-1, 2)],
                Rotation::West => [(1, 0), (0, 0), (-1, 0), (-2, 0)],
            },
            TetrominoType::O => {
                // O piece has a single visual orientation
                [(0, 0), (0, 1), (-1, 0), (-1, 1)]
            },
            TetrominoType::T => match rotation {
                Rotation::North => [(0, -1), (0, 0), (0, 1), (1, 0)],
                Rotation::East => [(1, 0), (0, 0), (-1, 0), (0, 1)],
                Rotation::South => [(0, -1), (0, 0), (0, 1), (-1, 0)],
                Rotation::West => [(1, 0), (0, 0), (-1, 0), (0, -1)],
            },
            TetrominoType::S => match rotation {
                Rotation::North => [(1, 0), (1, 1), (0, -1), (0, 0)],
                Rotation::East => [(1, 0), (0, 0), (0, 1), (-1, 1)],
                Rotation::South => [(0, 0), (0, 1), (-1, -1), (-1, 0)],
                Rotation::West => [(1, -1), (0, -1), (0, 0), (-1, 0)],
            },
            TetrominoType::Z => match rotation {
                Rotation::North => [(1, -1), (1, 0), (0, 0), (0, 1)],
                Rotation::East => [(1, 1), (0, 0), (0, 1), (-1, 0)],
                Rotation::South => [(0, -1), (0, 0), (-1, 0), (-1, 1)],
                Rotation::West => [(1, 0), (0, -1), (0, 0), (-1, -1)],
            },
            TetrominoType::J => match rotation {
                Rotation::North => [(1, -1), (0, -1), (0, 0), (0, 1)],
                Rotation::East => [(1, 0), (1, 1), (0, 0), (-1, 0)],
                Rotation::South => [(0, -1), (0, 0), (0, 1), (-1, 1)],
                Rotation::West => [(1, 0), (0, 0), (-1, 0), (-1, -1)],
            },
            TetrominoType::L => match rotation {
                Rotation::North => [(1, 1), (0, -1), (0, 0), (0, 1)],
                Rotation::East => [(1, 0), (0, 0), (-1, 0), (-1, 1)],
                Rotation::South => [(0, -1), (0, 0), (0, 1), (-1, -1)],
                Rotation::West => [(1, -1), (1, 0), (0, 0), (-1, 0)],
            },
        };
        proof {
            assert(r@ =~= self.spec_shape(rotation));
        }
        r
    }

    /// The spawn offset of a kind, added to the top of the visible area.
    pub open spec fn spec_spawn_position(self) -> (i32, i32) {
        match self {
            TetrominoType::I => (0i32, 4i32),
            TetrominoType::O => (0i32, 4i32),
            _ => (1i32, 4i32),
        }
    }

    /// Get spawn position (row, col) - pieces spawn at top center.
    pub fn spawn_position(&self) -> (r: (i32, i32))
        ensures
            r == self.spec_spawn_position(),
    {
        match self {
            TetrominoType::I => (0, 4),
            TetrominoType::O => (0, 4),
            _ => (1, 4),
        }
    }
}

impl Rotation {
    /// One clockwise step in the 4-cycle.
    pub open spec fn spec_cw(self) -> Rotation {
        match self {
            Rotation::North => Rotation::East,
            Rotation::East => Rotation::South,
            Rotation::South => Rotation::West,
            Rotation::West => Rotation::North,
        }
    }

    /// One counter-clockwise step in the 4-cycle.
    pub open spec fn spec_ccw(self) -> Rotation {
        match self {
            Rotation::North => Rotation::West,
            Rotation::West => Rotation::South,
            Rotation::South => Rotation::East,
            Rotation::East => Rotation::North,
        }
    }

    /// Rotate clockwise: North -> East -> South -> West -> North.
    pub fn cw(&self) -> (r: Rotation)
        ensures
            r == self.spec_cw(),
    {
        match self {
            Rotation::North => Rotation::East,
            Rotation::East => Rotation::South,
            Rotation::South => Rotation::West,
            Rotation::West => Rotation::North,
        }
    }

    /// Rotate counter-clockwise: North -> West -> South -> East -> North.
    pub fn ccw(&self) -> (r: Rotation)
        ensures
            r == self.spec_ccw(),
    {
        match self {
            Rotation::North => Rotation::West,
            Rotation::West => Rotation::South,
            Rotation::South => Rotation::East,
            Rotation::East => Rotation::North,
        }
    }
}

/// The two rotation steps are inverse to each other.
pub proof fn lemma_rotation_cycle(r: Rotation)
    ensures
        r.spec_cw().spec_ccw() == r,
        r.spec_ccw().spec_cw() == r,
{
}

} // verus!
