use tictactoe::game::Piece;
use tictactoe::text::{parse_col, parse_row, render};

#[test]
fn cells_render_as_three_symbols() {
    assert_eq!(render(Some(Piece::X)), "X");
    assert_eq!(render(Some(Piece::O)), "O");
    assert_eq!(render(None), ".");
}

#[test]
fn column_letters_parse_case_insensitively() {
    assert_eq!(parse_col('A'), Some(0));
    assert_eq!(parse_col('a'), Some(0));
    assert_eq!(parse_col('B'), Some(1));
    assert_eq!(parse_col('b'), Some(1));
    assert_eq!(parse_col('C'), Some(2));
    assert_eq!(parse_col('c'), Some(2));
}

#[test]
fn other_characters_name_no_column() {
    assert_eq!(parse_col('d'), None);
    assert_eq!(parse_col('0'), None);
    assert_eq!(parse_col(' '), None);
    assert_eq!(parse_col('x'), None);
}

#[test]
fn row_digits_parse_to_their_row() {
    assert_eq!(parse_row('0'), Some(0));
    assert_eq!(parse_row('1'), Some(1));
    assert_eq!(parse_row('2'), Some(2));
}

#[test]
fn other_characters_name_no_row() {
    assert_eq!(parse_row('3'), None);
    assert_eq!(parse_row('9'), None);
    assert_eq!(parse_row('a'), None);
    assert_eq!(parse_row('-'), None);
}
