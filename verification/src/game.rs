//! The executable engine: a board, the player to move, and the operations
//! that the rules allow on them.

use crate::player::Player;
use crate::rules::GameState;
use crate::rules::MoveError;
use crate::rules::Position;
use vstd::prelude::*;

verus! {

/// A game in progress: `board[row][col]` is the mark on a square, if any, and
/// `turn` is the player who moves next.
#[derive(Clone, Debug, PartialEq, Eq)]
pub struct TicTacToe {
    pub board: [[Option<Player>; 3]; 3],
    pub turn: Player,
}

impl View for TicTacToe {
    type V = Position;

    open spec fn view(&self) -> Position {
        Position { grid: Seq::new(3, |row: int| self.board[row]@), turn: self.turn }
    }
}

impl TicTacToe {
    /// A new game: an empty board, and `X` moves first.
    pub fn new() -> (game: TicTacToe)
        ensures
            game@ == Position::start(),
    {
        let game = TicTacToe { board: [[None; 3]; 3], turn: Player::X };
        assert(game@.grid =~~= Position::start().grid);
        game
    }

    /// Whether `player` holds the square at `(row, col)`.
    fn has(&self, player: Player, row: usize, col: usize) -> (held: bool)
        requires
            row < 3,
            col < 3,
        ensures
            held == self@.holds(player, row as int, col as int),
    {
        match self.board[row][col] {
            Some(holder) => holder == player,
            None => false,
        }
    }

    /// Whether `player` holds all three squares of a row, a column or a
    /// diagonal. Any board may be asked about either player, whoever is to
    /// move and however the marks came to be there.
    pub fn has_won(&self, player: Player) -> (won: bool)
        ensures
            won == self@.has_line(player),
    {
        for row in 0..3usize
            invariant
                forall|r: int| 0 <= r < row ==> !#[trigger] self@.holds_row(player, r),
        {
            if self.has(player, row, 0) && self.has(player, row, 1) && self.has(player, row, 2) {
                proof {
                    assert(self@.holds_row(player, row as int));
                    self@.lemma_line_is_row_column_or_diagonal(player);
                }
                return true;
            }
        }
        for col in 0..3usize
            invariant
                forall|r: int| 0 <= r < 3 ==> !#[trigger] self@.holds_row(player, r),
                forall|c: int| 0 <= c < col ==> !#[trigger] self@.holds_column(player, c),
        {
            if self.has(player, 0, col) && self.has(player, 1, col) && self.has(player, 2, col) {
                proof {
                    assert(self@.holds_column(player, col as int));
                    self@.lemma_line_is_row_column_or_diagonal(player);
                }
                return true;
            }
        }
        proof {
            self@.lemma_line_is_row_column_or_diagonal(player);
        }
        if self.has(player, 0, 0) && self.has(player, 1, 1) && self.has(player, 2, 2) {
            return true;
        }
        self.has(player, 0, 2) && self.has(player, 1, 1) && self.has(player, 2, 0)
    }

    /// Whether all nine squares hold a mark.
    pub fn is_full(&self) -> (full: bool)
        ensures
            full == self@.full(),
    {
        for row in 0..3usize
            invariant
                forall|r: int, c: int|
                    0 <= r < row && 0 <= c < 3 ==> (#[trigger] self@.cell(r, c)) is Some,
        {
            for col in 0..3usize
                invariant
                    row < 3,
                    forall|r: int, c: int|
                        0 <= r < row && 0 <= c < 3 ==> (#[trigger] self@.cell(r, c)) is Some,
                    forall|c: int| 0 <= c < col ==> (#[trigger] self@.cell(row as int, c)) is Some,
            {
                if self.board[row][col].is_none() {
                    assert(self@.cell(row as int, col as int) is None);
                    return false;
                }
            }
        }
        true
    }

    /// Tries to set the mark of the player to move at `(row, col)`.
    ///
    /// A move outside the board is refused with `OutOfBounds`, one onto a
    /// taken square with `TileTaken`; either way the game is left as it was.
    /// An accepted move sets the mark. If it completes a line the result is
    /// `Won` with the mover, else if it fills the board the result is `Full`,
    /// and in both cases the turn stays with the mover. Otherwise the turn
    /// passes to the opponent and the result is `Ongoing`.
    pub fn make_move(&mut self, row: usize, col: usize) -> (result: Result<GameState, MoveError>)
        ensures
            // The answer and the game afterwards are what the rules say.
            result == old(self)@.move_result(row as int, col as int),
            final(self)@ == old(self)@.after_move(row as int, col as int),
            // Each refusal comes exactly when it is due.
            (result matches Err(MoveError::OutOfBounds)) <==> (row > 2 || col > 2),
            (result matches Err(MoveError::TileTaken)) <==> (row <= 2 && col <= 2 && old(
                self,
            ).board[row as int][col as int] is Some),
            // A refused move leaves the board and the turn untouched.
            result is Err ==> *final(self) == *old(self),
            // An accepted move puts the mover's mark on the square.
            result is Ok ==> final(self).board[row as int][col as int] == Some(old(self).turn),
            // The turn passes on exactly when the game goes on.
            final(self).turn == if result matches Ok(GameState::Ongoing) {
                old(self).turn.opponent()
            } else {
                old(self).turn
            },
    {
        if row > 2 || col > 2 {
            return Err(MoveError::OutOfBounds);
        }
        if self.board[row][col].is_some() {
            return Err(MoveError::TileTaken);
        }
        self.board[row][col] = Some(self.turn);
        assert(self@.grid =~~= old(self)@.marked(row as int, col as int).grid);
        if self.has_won(self.turn) {
            return Ok(GameState::Won(self.turn));
        }
        if self.is_full() {
            return Ok(GameState::Full);
        }
        self.turn = self.turn.opponent();
        Ok(GameState::Ongoing)
    }

    /// The position that stands for a game always has three rows of three
    /// squares, and no two games stand for the same position.
    pub proof fn lemma_view_is_faithful(self, other: TicTacToe)
        ensures
            self@.wf(),
            self@ == other@ ==> self == other,
    {
        if self@ == other@ {
            assert forall|row: int| 0 <= row < 3 implies self.board[row] == other.board[row] by {
                assert(self@.grid[row] == other@.grid[row]);
            }
            assert(self.board =~= other.board);
        }
    }

    /// What `has_won` and `is_full` answer rests on the board alone: asked
    /// again of a board that has not changed, whoever is to move, they
    /// answer the same.
    pub proof fn lemma_queries_read_the_board(self, other: TicTacToe, player: Player)
        requires
            self.board == other.board,
        ensures
            self@.has_line(player) == other@.has_line(player),
            self@.full() == other@.full(),
    {
        self@.lemma_turn_is_not_on_the_grid(other@, player);
    }
}

} // verus!
