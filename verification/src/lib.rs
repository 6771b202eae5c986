//! A deterministic simulation engine for a falling-block puzzle game:
//! board and piece state machine, SRS rotation with wall kicks, lock-delay
//! timing, line clearing with T-spin recognition, guideline scoring, and a
//! seeded 7-bag piece generator.

pub mod audio;
pub mod bag;
pub mod board;
pub mod game;
pub mod input;
pub mod menu;
pub mod mode;
pub mod multiplayer;
pub mod piece;
pub mod score;
pub mod settings;
pub mod srs;
pub mod text;
pub mod tetromino;

pub use tetromino::TetrominoType;
