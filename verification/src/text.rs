//! Pure text mappings for the input/output boundary: the symbol shown for
//! one cell, and the column letter / row digit of a move. Reading lines and
//! printing the grid stay outside the engine; only these mappings carry
//! meaning, so they live here with exact contracts.

use vstd::prelude::*;
use crate::game::Piece;

verus! {

/// The symbol shown for one cell: the piece's letter, or a dot when empty.
pub open spec fn render_spec(t: Option<Piece>) -> Seq<char> {
    match t {
        Some(Piece::X) => "X"@,
        Some(Piece::O) => "O"@,
        None => "."@,
    }
}

/// Renders one cell as its display symbol.
pub fn render(t: Option<Piece>) -> (r: &'static str)
    ensures
        r@ == render_spec(t),
{
    match t {
        Some(Piece::X) => "X",
        Some(Piece::O) => "O",
        None => ".",
    }
}

/// The column selected by a letter: `A`/`a`, `B`/`b`, `C`/`c` name columns
/// 0, 1, 2; any other character selects nothing.
pub open spec fn parse_col_spec(c: char) -> Option<usize> {
    if c == 'A' || c == 'a' {
        Some(0usize)
    } else if c == 'B' || c == 'b' {
        Some(1usize)
    } else if c == 'C' || c == 'c' {
        Some(2usize)
    } else {
        None
    }
}

/// Parses a column letter, case-insensitively.
pub fn parse_col(c: char) -> (r: Option<usize>)
    ensures
        r == parse_col_spec(c),
{
    match c {
        'A' | 'a' => Some(0),
        'B' | 'b' => Some(1),
        'C' | 'c' => Some(2),
        _ => None,
    }
}

/// The row selected by a digit: `0`, `1`, `2` name rows 0, 1, 2; any other
/// character selects nothing.
pub open spec fn parse_row_spec(c: char) -> Option<usize> {
    if c == '0' {
        Some(0usize)
    } else if c == '1' {
        Some(1usize)
    } else if c == '2' {
        Some(2usize)
    } else {
        None
    }
}

/// Parses a row digit.
pub fn parse_row(c: char) -> (r: Option<usize>)
    ensures
        r == parse_row_spec(c),
{
    match c {
        '0' => Some(0),
        '1' => Some(1),
        '2' => Some(2),
        _ => None,
    }
}

} // verus!
