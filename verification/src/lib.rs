//! A verified engine for a two-player game on a fixed 3-by-3 grid.
//!
//! The `game` module owns the board, the turn marker and the winner flag,
//! and proves that moves are validated before any mutation and that the
//! outcome reported for a board is exactly the one the game's rules assign.
//! The `text` module holds the pure text mappings used at the input/output
//! boundary: one symbol per cell and the column/row characters of a move.

pub mod game;
pub mod text;
