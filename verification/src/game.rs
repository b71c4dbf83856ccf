//! The game engine: board state, move validation, turn alternation and
//! outcome detection for a 3-by-3 grid.

use vstd::prelude::*;

verus! {

/// One of the two player identities placed into cells. `X` moves first.
#[derive(Debug, Clone, Copy, PartialEq, Eq, Structural)]
pub enum Piece {
    X,
    O,
}

impl Piece {
    /// The other piece.
    pub open spec fn flip_spec(self) -> Piece {
        match self {
            Piece::X => Piece::O,
            Piece::O => Piece::X,
        }
    }

    /// Toggles a piece: `X` becomes `O` and `O` becomes `X`.
    pub fn not(self) -> (r: Piece)
        ensures
            r == self.flip_spec(),
    {
        match self {
            Piece::X => Piece::O,
            Piece::O => Piece::X,
        }
    }
}

/// Why a move was rejected. Both kinds leave the game untouched.
#[derive(Debug, Clone, Copy, PartialEq, Eq, Structural)]
pub enum GameError {
    /// The row or the column lies outside `[0, 2]`.
    OutOfRange,
    /// The addressed cell already holds a piece.
    CellOccupied,
}

/// The terminal classification of a game.
#[derive(Debug, Clone, Copy, PartialEq, Eq, Structural)]
pub enum Outcome {
    /// No winning line yet and at least one empty cell.
    Undecided,
    /// The given piece holds a complete line.
    Won(Piece),
    /// Every cell is occupied and no piece holds a line.
    Drawn,
}

/// The piece that owns all three of the cells `a`, `b`, `c`, if any.
pub open spec fn line_mark(a: Option<Piece>, b: Option<Piece>, c: Option<Piece>) -> Option<
    Piece,
> {
    if a is Some && b == a && c == a {
        a
    } else {
        None
    }
}

/// The first of `a`, `b` that holds a piece.
pub open spec fn first_some(a: Option<Piece>, b: Option<Piece>) -> Option<Piece> {
    if a is Some {
        a
    } else {
        b
    }
}

/// A game in progress: the 3-by-3 board (stored row by row), the piece
/// whose turn it is, and the winner found so far, if any.
pub struct Game {
    board: Vec<Option<Piece>>,
    turn: Piece,
    winner: Option<Piece>,
}

impl Game {
    /// The board as a sequence of 9 cells, row by row.
    pub closed spec fn board_spec(self) -> Seq<Option<Piece>> {
        self.board@
    }

    /// The piece whose turn it is.
    pub closed spec fn turn_spec(self) -> Piece {
        self.turn
    }

    /// The winner recorded so far, if any.
    pub closed spec fn winner_spec(self) -> Option<Piece> {
        self.winner
    }

    /// A well-formed game holds exactly the 9 cells of the grid.
    pub open spec fn wf(self) -> bool {
        self.board_spec().len() == 9
    }

    /// The cell at `row`, `col`, each in `[0, 2]`.
    pub open spec fn cell(self, row: int, col: int) -> Option<Piece> {
        self.board_spec()[3 * row + col]
    }

    /// Starts a new game: an empty board, `X` to move, no winner.
    pub fn new() -> (g: Game)
        ensures
            g.wf(),
            g.turn_spec() == Piece::X,
            g.winner_spec() is None,
            forall|i: int| 0 <= i < 9 ==> g.board_spec()[i] is None,
            forall|row: int, col: int|
                0 <= row < 3 && 0 <= col < 3 ==> g.cell(row, col) is None,
    {
        let mut board: Vec<Option<Piece>> = Vec::new();
        let mut i: usize = 0;
        while i < 9
            invariant
                i <= 9,
                board@.len() == i as int,
                forall|j: int| 0 <= j < i ==> board@[j] is None,
            decreases 9 - i,
        {
            board.push(None);
            i = i + 1;
        }
        Game { board, turn: Piece::X, winner: None }
    }

    /// What one move attempt at `row`, `col` answers. An occupied cell is
    /// reported before a coordinate outside the grid; a move into an empty
    /// cell of the grid always succeeds.
    pub open spec fn play_result(self, row: int, col: int) -> Result<(), GameError> {
        if row <= 2 && col <= 2 && self.cell(row, col) is Some {
            Err(GameError::CellOccupied)
        } else if row > 2 || col > 2 {
            Err(GameError::OutOfRange)
        } else {
            Ok(())
        }
    }

    /// Attempts a move at `row`, `col` for the piece whose turn it is.
    ///
    /// On success the addressed cell receives that piece and the turn
    /// passes to the other piece; on failure nothing changes. The winner
    /// flag is never touched here: [`Game::update`] recomputes it.
    pub fn play(&mut self, row: usize, col: usize) -> (r: Result<(), GameError>)
        requires
            old(self).wf(),
        ensures
            final(self).wf(),
            r == old(self).play_result(row as int, col as int),
            final(self).turn_spec() == (if r is Ok {
                old(self).turn_spec().flip_spec()
            } else {
                old(self).turn_spec()
            }),
            final(self).winner_spec() == old(self).winner_spec(),
            r is Ok ==> final(self).board_spec() == old(self).board_spec().update(
                3 * row + col,
                Some(old(self).turn_spec()),
            ),
            r is Err ==> final(self).board_spec() == old(self).board_spec(),
    {
        if row <= 2 && col <= 2 {
            let idx: usize = row * 3 + col;
            if self.board[idx].is_some() {
                return Err(GameError::CellOccupied);
            }
        }

        if row > 2 || col > 2 {
            return Err(GameError::OutOfRange);
        }

        let idx: usize = row * 3 + col;
        let piece = self.turn;
        self.board.set(idx, Some(piece));
        self.turn = piece.not();
        Ok(())
    }

    /// `m` owns all of row `row`.
    pub open spec fn row_win(self, m: Piece, row: int) -> bool {
        self.cell(row, 0) == Some(m) && self.cell(row, 1) == Some(m) && self.cell(row, 2) == Some(
            m,
        )
    }

    /// `m` owns all of column `col`.
    pub open spec fn col_win(self, m: Piece, col: int) -> bool {
        self.cell(0, col) == Some(m) && self.cell(1, col) == Some(m) && self.cell(2, col) == Some(
            m,
        )
    }

    /// `m` owns one of the two diagonals.
    pub open spec fn diag_win(self, m: Piece) -> bool {
        (self.cell(0, 0) == Some(m) && self.cell(1, 1) == Some(m) && self.cell(2, 2) == Some(m))
            || (self.cell(0, 2) == Some(m) && self.cell(1, 1) == Some(m) && self.cell(2, 0)
            == Some(m))
    }

    /// `m` owns some complete line: a row, a column or a diagonal.
    pub open spec fn line_win(self, m: Piece) -> bool {
        self.diag_win(m) || self.row_win(m, 0) || self.row_win(m, 1) || self.row_win(m, 2)
            || self.col_win(m, 0) || self.col_win(m, 1) || self.col_win(m, 2)
    }

    /// The piece owning row `row`, if any.
    pub open spec fn row_mark(self, row: int) -> Option<Piece> {
        line_mark(self.cell(row, 0), self.cell(row, 1), self.cell(row, 2))
    }

    /// The piece owning column `col`, if any.
    pub open spec fn col_mark(self, col: int) -> Option<Piece> {
        line_mark(self.cell(0, col), self.cell(1, col), self.cell(2, col))
    }

    /// The piece owning a diagonal, if any.
    pub open spec fn diag_mark(self) -> Option<Piece> {
        first_some(
            line_mark(self.cell(0, 0), self.cell(1, 1), self.cell(2, 2)),
            line_mark(self.cell(0, 2), self.cell(1, 1), self.cell(2, 0)),
        )
    }

    /// The winner the scan of [`Game::update`] finds: the diagonals first,
    /// then the rows in order, then the columns in order.
    pub open spec fn scan_winner(self) -> Option<Piece> {
        first_some(
            self.diag_mark(),
            first_some(
                self.row_mark(0),
                first_some(
                    self.row_mark(1),
                    first_some(
                        self.row_mark(2),
                        first_some(
                            self.col_mark(0),
                            first_some(self.col_mark(1), self.col_mark(2)),
                        ),
                    ),
                ),
            ),
        )
    }

    /// Every cell of the grid is occupied.
    pub open spec fn full(self) -> bool {
        forall|row: int, col: int|
            0 <= row < 3 && 0 <= col < 3 ==> self.cell(row, col) is Some
    }

    /// The outcome the rules assign to the board as it stands: a win for
    /// the scanned winner if there is one, else a draw on a full board,
    /// else undecided.
    pub open spec fn recomputed_outcome(self) -> Outcome {
        match self.scan_winner() {
            Some(m) => Outcome::Won(m),
            None => if self.full() {
                Outcome::Drawn
            } else {
                Outcome::Undecided
            },
        }
    }

    /// The outcome of the game state as recorded: a win once a winner is
    /// flagged, else a draw on a full board, else undecided.
    pub open spec fn outcome_spec(self) -> Outcome {
        match self.winner_spec() {
            Some(m) => Outcome::Won(m),
            None => if self.full() {
                Outcome::Drawn
            } else {
                Outcome::Undecided
            },
        }
    }

    /// Rescans the board and flags the winner, if a complete line exists.
    ///
    /// The board and the turn are untouched. The scan checks the diagonals
    /// first, then rows 0..2, then columns 0..2, and keeps the first owner
    /// found; with no line the flag keeps its old value.
    pub fn update(&mut self)
        requires
            old(self).wf(),
        ensures
            final(self).wf(),
            final(self).board_spec() == old(self).board_spec(),
            final(self).turn_spec() == old(self).turn_spec(),
            final(self).winner_spec() == (if old(self).scan_winner() is Some {
                old(self).scan_winner()
            } else {
                old(self).winner_spec()
            }),
            old(self).winner_spec() is None ==> final(self).outcome_spec() == old(
                self,
            ).recomputed_outcome(),
    {
        let d1 = line_eq(self.board[0], self.board[4], self.board[8]);
        if let Some(p) = d1 {
            self.winner = Some(p);
            return;
        }
        let d2 = line_eq(self.board[2], self.board[4], self.board[6]);
        if let Some(p) = d2 {
            self.winner = Some(p);
            return;
        }
        let r0 = line_eq(self.board[0], self.board[1], self.board[2]);
        if let Some(p) = r0 {
            self.winner = Some(p);
            return;
        }
        let r1 = line_eq(self.board[3], self.board[4], self.board[5]);
        if let Some(p) = r1 {
            self.winner = Some(p);
            return;
        }
        let r2 = line_eq(self.board[6], self.board[7], self.board[8]);
        if let Some(p) = r2 {
            self.winner = Some(p);
            return;
        }
        let c0 = line_eq(self.board[0], self.board[3], self.board[6]);
        if let Some(p) = c0 {
            self.winner = Some(p);
            return;
        }
        let c1 = line_eq(self.board[1], self.board[4], self.board[7]);
        if let Some(p) = c1 {
            self.winner = Some(p);
            return;
        }
        let c2 = line_eq(self.board[2], self.board[5], self.board[8]);
        if let Some(p) = c2 {
            self.winner = Some(p);
            return;
        }
    }

    /// Walks the board and reports whether every cell is occupied.
    fn is_full(&self) -> (r: bool)
        requires
            self.wf(),
        ensures
            r == self.full(),
    {
        let mut i: usize = 0;
        while i < 9
            invariant
                self.wf(),
                i <= 9,
                forall|j: int| 0 <= j < i ==> self.board_spec()[j] is Some,
            decreases 9 - i,
        {
            if self.board[i].is_none() {
                // The empty cell in grid coordinates: it refutes `full`.
                assert(self.cell(i as int / 3, i as int % 3) is None);
                return false;
            }
            i = i + 1;
        }
        true
    }

    /// The game is over: a winner has been flagged or the board is full.
    pub fn is_done(&self) -> (r: bool)
        requires
            self.wf(),
        ensures
            r == (self.winner_spec() is Some || self.full()),
            r == (self.outcome_spec() != Outcome::Undecided),
    {
        if self.winner.is_some() {
            return true;
        }
        self.is_full()
    }

    /// The outcome of the game as it stands.
    pub fn outcome(&self) -> (o: Outcome)
        requires
            self.wf(),
        ensures
            o == self.outcome_spec(),
    {
        match self.winner {
            Some(m) => Outcome::Won(m),
            None => if self.is_full() {
                Outcome::Drawn
            } else {
                Outcome::Undecided
            },
        }
    }

    /// The piece whose turn it is.
    pub fn current_turn(&self) -> (m: Piece)
        ensures
            m == self.turn_spec(),
    {
        self.turn
    }

    /// A read-only view of the board: 9 cells, row by row.
    pub fn snapshot(&self) -> (b: &Vec<Option<Piece>>)
        ensures
            b@ == self.board_spec(),
    {
        &self.board
    }
}

/// The piece whose turn it is after `n` further successful moves, when it
/// is `m`'s turn now: each successful move passes the turn to the other
/// piece.
pub open spec fn turn_after(m: Piece, n: nat) -> Piece
    decreases n,
{
    if n == 0 {
        m
    } else {
        turn_after(m, (n - 1) as nat).flip_spec()
    }
}

/// The turn alternates strictly: after `n` consecutive successful moves
/// starting from `X` — each of which, by the contract of [`Game::play`],
/// passes the turn to the other piece — the turn is `X` when `n` is even
/// and `O` when `n` is odd.
pub proof fn lemma_turn_alternates(n: nat)
    ensures
        turn_after(Piece::X, n) == (if n % 2 == 0 {
            Piece::X
        } else {
            Piece::O
        }),
    decreases n,
{
    if n > 0 {
        lemma_turn_alternates((n - 1) as nat);
    }
}

/// A scanned winner really owns a line.
proof fn lemma_scan_winner_wins(g: Game)
    ensures
        g.scan_winner() matches Some(w) ==> g.line_win(w),
{
}

/// A piece that owns a line makes the scan find a winner.
proof fn lemma_line_win_is_scanned(g: Game, m: Piece)
    ensures
        g.line_win(m) ==> g.scan_winner() is Some,
{
}

/// A win is reported exactly for a line that is held: on a board where the
/// two pieces do not both hold complete lines, the recomputed outcome is
/// `Won(m)` if and only if some row, column or diagonal has all three
/// cells equal to `Some(m)`.
pub proof fn lemma_won_iff_line(g: Game, m: Piece)
    requires
        g.wf(),
        !(g.line_win(Piece::X) && g.line_win(Piece::O)),
    ensures
        g.recomputed_outcome() == Outcome::Won(m) <==> g.line_win(m),
{
    lemma_scan_winner_wins(g);
    lemma_line_win_is_scanned(g, m);
}

/// A full board without a winning line is drawn.
pub proof fn lemma_full_board_without_line_is_drawn(g: Game)
    requires
        g.wf(),
        !g.line_win(Piece::X),
        !g.line_win(Piece::O),
        g.full(),
    ensures
        g.recomputed_outcome() == Outcome::Drawn,
{
    lemma_scan_winner_wins(g);
}

/// A board without a winning line and with at least one empty cell is
/// still undecided.
pub proof fn lemma_open_board_without_line_is_undecided(g: Game)
    requires
        g.wf(),
        !g.line_win(Piece::X),
        !g.line_win(Piece::O),
        exists|row: int, col: int|
            0 <= row < 3 && 0 <= col < 3 && g.cell(row, col) is None,
    ensures
        g.recomputed_outcome() == Outcome::Undecided,
{
    lemma_scan_winner_wins(g);
    let (row, col) = choose|row: int, col: int|
        0 <= row < 3 && 0 <= col < 3 && g.cell(row, col) is None;
    assert(!g.full());
}

/// Rejection of an occupied cell is stable: a move into an occupied cell
/// of the grid answers `CellOccupied`, and since a failed move leaves the
/// game untouched (by the contract of [`Game::play`]), repeating the same
/// move fails the same way, with the board never mutated.
pub proof fn lemma_occupied_cell_always_rejected(g: Game, row: int, col: int)
    requires
        g.wf(),
        0 <= row <= 2,
        0 <= col <= 2,
        g.cell(row, col) is Some,
    ensures
        g.play_result(row, col) == Err::<(), GameError>(GameError::CellOccupied),
{
}

/// Compares three cells and returns their common piece, if all three hold
/// the same one.
fn line_eq(a: Option<Piece>, b: Option<Piece>, c: Option<Piece>) -> (r: Option<Piece>)
    ensures
        r == line_mark(a, b, c),
{
    match (a, b, c) {
        (Some(x), Some(y), Some(z)) => if x == y && x == z {
            Some(x)
        } else {
            None
        },
        _ => None,
    }
}

} // verus!
