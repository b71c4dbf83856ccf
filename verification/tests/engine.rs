use tictactoe::game::{Game, GameError, Outcome, Piece};

fn board_of(g: &Game) -> Vec<Option<Piece>> {
    g.snapshot().clone()
}

#[test]
fn new_game_is_empty_and_undecided() {
    let g = Game::new();
    assert_eq!(g.current_turn(), Piece::X);
    assert_eq!(g.outcome(), Outcome::Undecided);
    assert!(!g.is_done());
    let board = board_of(&g);
    assert_eq!(board.len(), 9);
    for cell in board {
        assert_eq!(cell, None);
    }
}

#[test]
fn piece_toggles_to_the_other_piece() {
    assert_eq!(Piece::X.not(), Piece::O);
    assert_eq!(Piece::O.not(), Piece::X);
    assert_eq!(Piece::X.not().not(), Piece::X);
}

#[test]
fn successful_move_places_current_piece_and_flips_turn() {
    let mut g = Game::new();
    assert_eq!(g.play(1, 2), Ok(()));
    assert_eq!(g.snapshot()[1 * 3 + 2], Some(Piece::X));
    assert_eq!(g.current_turn(), Piece::O);
    assert_eq!(g.play(2, 1), Ok(()));
    assert_eq!(g.snapshot()[2 * 3 + 1], Some(Piece::O));
    assert_eq!(g.current_turn(), Piece::X);
}

#[test]
fn move_with_row_out_of_range_fails_and_changes_nothing() {
    let mut g = Game::new();
    assert_eq!(g.play(0, 0), Ok(()));
    let before = board_of(&g);
    let turn = g.current_turn();
    assert_eq!(g.play(3, 0), Err(GameError::OutOfRange));
    assert_eq!(board_of(&g), before);
    assert_eq!(g.current_turn(), turn);
}

#[test]
fn move_with_col_out_of_range_fails_and_changes_nothing() {
    let mut g = Game::new();
    let before = board_of(&g);
    assert_eq!(g.play(0, 7), Err(GameError::OutOfRange));
    assert_eq!(board_of(&g), before);
    assert_eq!(g.current_turn(), Piece::X);
}

#[test]
fn move_into_occupied_cell_fails_and_changes_nothing() {
    let mut g = Game::new();
    assert_eq!(g.play(1, 1), Ok(()));
    let before = board_of(&g);
    let turn = g.current_turn();
    assert_eq!(g.play(1, 1), Err(GameError::CellOccupied));
    assert_eq!(board_of(&g), before);
    assert_eq!(g.current_turn(), turn);
}

#[test]
fn rejection_of_occupied_cell_is_idempotent() {
    let mut g = Game::new();
    assert_eq!(g.play(2, 2), Ok(()));
    let before = board_of(&g);
    assert_eq!(g.play(2, 2), Err(GameError::CellOccupied));
    assert_eq!(g.play(2, 2), Err(GameError::CellOccupied));
    assert_eq!(board_of(&g), before);
}

#[test]
fn turn_alternates_strictly_over_successful_moves() {
    let mut g = Game::new();
    // A move order that never completes a line before the last move.
    let moves = [(0, 0), (0, 2), (0, 1), (1, 0), (1, 2), (1, 1), (2, 0), (2, 1)];
    for (n, (row, col)) in moves.iter().enumerate() {
        let expected = if n % 2 == 0 { Piece::X } else { Piece::O };
        assert_eq!(g.current_turn(), expected);
        assert_eq!(g.play(*row, *col), Ok(()));
    }
    assert_eq!(g.current_turn(), Piece::X);
}

#[test]
fn row_win_is_found_and_reported() {
    let mut g = Game::new();
    for (row, col) in [(0, 0), (1, 0), (0, 1), (1, 1)] {
        assert_eq!(g.play(row, col), Ok(()));
        g.update();
        assert_eq!(g.outcome(), Outcome::Undecided);
    }
    assert_eq!(g.play(0, 2), Ok(())); // row 0 becomes X, X, X
    g.update();
    assert_eq!(g.outcome(), Outcome::Won(Piece::X));
    assert!(g.is_done());
}

#[test]
fn column_win_is_found_and_reported() {
    let mut g = Game::new();
    for (row, col) in [(0, 1), (0, 0), (1, 1), (1, 0), (2, 1)] {
        assert_eq!(g.play(row, col), Ok(()));
        g.update();
    }
    // Column 1 is X, X, X.
    assert_eq!(g.outcome(), Outcome::Won(Piece::X));
}

#[test]
fn diagonal_win_is_found_and_reported() {
    let mut g = Game::new();
    for (row, col) in [(0, 0), (1, 0), (1, 1), (2, 0), (2, 2)] {
        assert_eq!(g.play(row, col), Ok(()));
        g.update();
    }
    // The diagonal (0,0)-(1,1)-(2,2) is X, X, X; column 0 is X, O, O.
    assert_eq!(g.outcome(), Outcome::Won(Piece::X));
}

#[test]
fn second_piece_can_win_on_the_other_diagonal() {
    let mut g = Game::new();
    for (row, col) in [(0, 0), (0, 2), (1, 0), (1, 1), (2, 2), (2, 0)] {
        assert_eq!(g.play(row, col), Ok(()));
        g.update();
    }
    // The diagonal (0,2)-(1,1)-(2,0) is O, O, O.
    assert_eq!(g.outcome(), Outcome::Won(Piece::O));
    assert!(g.is_done());
}

#[test]
fn full_board_without_line_is_drawn() {
    let mut g = Game::new();
    // X takes (0,0), (0,1), (1,2), (2,0), (2,2); O takes the rest.
    let moves = [
        (0, 0),
        (0, 2),
        (0, 1),
        (1, 0),
        (1, 2),
        (1, 1),
        (2, 0),
        (2, 1),
        (2, 2),
    ];
    for (n, (row, col)) in moves.iter().enumerate() {
        assert_eq!(g.play(*row, *col), Ok(()));
        g.update();
        if n < moves.len() - 1 {
            assert_eq!(g.outcome(), Outcome::Undecided);
            assert!(!g.is_done());
        }
    }
    assert_eq!(g.outcome(), Outcome::Drawn);
    assert!(g.is_done());
}

#[test]
fn update_on_an_empty_board_changes_nothing() {
    let mut g = Game::new();
    g.update();
    assert_eq!(g.outcome(), Outcome::Undecided);
    assert_eq!(g.current_turn(), Piece::X);
    for cell in board_of(&g) {
        assert_eq!(cell, None);
    }
}

#[test]
fn winner_is_kept_once_found() {
    let mut g = Game::new();
    for (row, col) in [(0, 0), (1, 0), (0, 1), (1, 1), (0, 2)] {
        assert_eq!(g.play(row, col), Ok(()));
    }
    g.update();
    assert_eq!(g.outcome(), Outcome::Won(Piece::X));
    g.update();
    assert_eq!(g.outcome(), Outcome::Won(Piece::X));
}
