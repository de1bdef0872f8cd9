//! Rule engine for a two-player flanking game on a 4x4 grid.
//!
//! Pieces of two colours start on opposite edges, move one orthogonal step
//! into an empty cell, and capture by flanking along the two lines through
//! the cell they arrive at.

pub mod board;
pub mod capture;
pub mod flank;
pub mod laws;
pub mod piece;
pub mod position;
pub mod rules;
pub mod selection;

pub use crate::board::Board;
pub use crate::piece::{Cell, PieceColor, PlayerColor};
pub use crate::position::{cursor_movement, Movement, OutOfRange, Position};
pub use crate::rules::MoveError;
pub use crate::selection::Outcome;
