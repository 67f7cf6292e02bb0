//! The rules of the game, stated over a mathematical position.

use crate::player::Player;
use vstd::prelude::*;

verus! {

/// How the game stands after an accepted move.
#[derive(Clone, Copy, PartialEq, Eq, Structural, Debug)]
pub enum GameState {
    /// The player who just moved completed a line.
    Won(Player),
    /// The board is full and the player who just moved completed no line.
    Full,
    /// The game goes on with the other player.
    Ongoing,
}

/// Why a move was refused.
#[derive(Clone, Copy, PartialEq, Eq, Structural, Debug)]
pub enum MoveError {
    /// The row or the column is not 0, 1 or 2.
    OutOfBounds,
    /// The square already holds a mark.
    TileTaken,
}

/// Whether `(row, col)` names one of the nine squares.
pub open spec fn on_board(row: int, col: int) -> bool {
    0 <= row < 3 && 0 <= col < 3
}

/// The eight winning lines, each by its three squares as `(row, column)`:
/// the three rows, the three columns, the main diagonal and the
/// anti-diagonal.
pub open spec fn winning_lines() -> Seq<Seq<(int, int)>> {
    seq![
        seq![(0, 0), (0, 1), (0, 2)],
        seq![(1, 0), (1, 1), (1, 2)],
        seq![(2, 0), (2, 1), (2, 2)],
        seq![(0, 0), (1, 0), (2, 0)],
        seq![(0, 1), (1, 1), (2, 1)],
        seq![(0, 2), (1, 2), (2, 2)],
        seq![(0, 0), (1, 1), (2, 2)],
        seq![(0, 2), (1, 1), (2, 0)],
    ]
}

/// A game as mathematics: what each square holds, row by row, and who is to
/// move.
#[verifier::ext_equal]
pub struct Position {
    pub grid: Seq<Seq<Option<Player>>>,
    pub turn: Player,
}

impl Position {
    /// The grid has three rows of three squares.
    pub open spec fn wf(self) -> bool {
        &&& self.grid.len() == 3
        &&& forall|row: int| 0 <= row < 3 ==> (#[trigger] self.grid[row]).len() == 3
    }

    /// What the square at `(row, col)` holds.
    pub open spec fn cell(self, row: int, col: int) -> Option<Player> {
        self.grid[row][col]
    }

    /// Whether `player` holds the square at `(row, col)`.
    pub open spec fn holds(self, player: Player, row: int, col: int) -> bool {
        self.cell(row, col) == Some(player)
    }

    /// Whether `player` holds every square of `line`.
    pub open spec fn holds_line(self, player: Player, line: Seq<(int, int)>) -> bool {
        forall|k: int| 0 <= k < line.len() ==> self.holds(player, (#[trigger] line[k]).0, line[k].1)
    }

    /// Whether `player` holds all of at least one winning line.
    pub open spec fn has_line(self, player: Player) -> bool {
        exists|i: int|
            0 <= i < winning_lines().len() && self.holds_line(player, #[trigger] winning_lines()[i])
    }

    /// Whether `player` holds the three squares of `row`.
    pub open spec fn holds_row(self, player: Player, row: int) -> bool {
        self.holds(player, row, 0) && self.holds(player, row, 1) && self.holds(player, row, 2)
    }

    /// Whether `player` holds the three squares of `col`.
    pub open spec fn holds_column(self, player: Player, col: int) -> bool {
        self.holds(player, 0, col) && self.holds(player, 1, col) && self.holds(player, 2, col)
    }

    /// Whether `player` holds the diagonal from the top left.
    pub open spec fn holds_diagonal(self, player: Player) -> bool {
        self.holds(player, 0, 0) && self.holds(player, 1, 1) && self.holds(player, 2, 2)
    }

    /// Whether `player` holds the diagonal from the top right.
    pub open spec fn holds_anti_diagonal(self, player: Player) -> bool {
        self.holds(player, 0, 2) && self.holds(player, 1, 1) && self.holds(player, 2, 0)
    }

    /// Whether every square holds a mark, whoever placed it.
    pub open spec fn full(self) -> bool {
        forall|row: int, col: int| on_board(row, col) ==> (#[trigger] self.cell(row, col)) is Some
    }

    /// The position before the first move: nine empty squares, `X` to move.
    pub open spec fn start() -> Position {
        Position {
            grid: Seq::new(3, |row: int| Seq::new(3, |col: int| None)),
            turn: Player::X,
        }
    }

    /// This position with the mark of the player to move set at `(row, col)`.
    /// The turn is not passed on.
    pub open spec fn marked(self, row: int, col: int) -> Position {
        Position {
            grid: self.grid.update(row, self.grid[row].update(col, Some(self.turn))),
            turn: self.turn,
        }
    }

    /// Why a move at `(row, col)` is refused, if it is. The bounds are looked
    /// at first, then the square.
    pub open spec fn refusal(self, row: int, col: int) -> Option<MoveError> {
        if !on_board(row, col) {
            Some(MoveError::OutOfBounds)
        } else if self.cell(row, col) is Some {
            Some(MoveError::TileTaken)
        } else {
            None
        }
    }

    /// How the game stands in this position when `mover` has just placed a
    /// mark: a line of the mover's is looked for first, then a full board.
    pub open spec fn standing(self, mover: Player) -> GameState {
        if self.has_line(mover) {
            GameState::Won(mover)
        } else if self.full() {
            GameState::Full
        } else {
            GameState::Ongoing
        }
    }

    /// What the player to move is told on trying `(row, col)`.
    pub open spec fn move_result(self, row: int, col: int) -> Result<GameState, MoveError> {
        match self.refusal(row, col) {
            Some(error) => Err(error),
            None => Ok(self.marked(row, col).standing(self.turn)),
        }
    }

    /// The position that a try at `(row, col)` leaves: this one if the move
    /// is refused; else the mark is set, and the turn passes to the opponent
    /// only if the game goes on.
    pub open spec fn after_move(self, row: int, col: int) -> Position {
        match self.move_result(row, col) {
            Err(_) => self,
            Ok(GameState::Ongoing) => Position {
                grid: self.marked(row, col).grid,
                turn: self.turn.opponent(),
            },
            Ok(_) => self.marked(row, col),
        }
    }

    /// Holding a winning line is holding a row, a column or a diagonal.
    pub proof fn lemma_line_is_row_column_or_diagonal(self, player: Player)
        ensures
            self.has_line(player) <==> {
                ||| exists|row: int| 0 <= row < 3 && #[trigger] self.holds_row(player, row)
                ||| exists|col: int| 0 <= col < 3 && #[trigger] self.holds_column(player, col)
                ||| self.holds_diagonal(player)
                ||| self.holds_anti_diagonal(player)
            },
    {
        let lines = winning_lines();
        if self.has_line(player) {
            let i = choose|i: int|
                0 <= i < winning_lines().len() && self.holds_line(player, #[trigger] winning_lines()[i]);
            if i < 3 {
                assert(self.holds_row(player, i));
            } else if i < 6 {
                assert(self.holds_column(player, i - 3));
            }
        }
        if exists|row: int| 0 <= row < 3 && #[trigger] self.holds_row(player, row) {
            let row = choose|row: int| 0 <= row < 3 && #[trigger] self.holds_row(player, row);
            assert(self.holds_line(player, lines[row]));
        }
        if exists|col: int| 0 <= col < 3 && #[trigger] self.holds_column(player, col) {
            let col = choose|col: int| 0 <= col < 3 && #[trigger] self.holds_column(player, col);
            assert(self.holds_line(player, lines[col + 3]));
        }
        if self.holds_diagonal(player) {
            assert(self.holds_line(player, lines[6]));
        }
        if self.holds_anti_diagonal(player) {
            assert(self.holds_line(player, lines[7]));
        }
    }

    /// Who is to move has no say in who holds a line, nor in whether the
    /// board is full: two positions with the same grid agree on both.
    pub proof fn lemma_turn_is_not_on_the_grid(self, other: Position, player: Player)
        requires
            self.grid == other.grid,
        ensures
            self.has_line(player) == other.has_line(player),
            self.full() == other.full(),
    {
        if self.full() {
            assert forall|row: int, col: int| on_board(row, col) implies (#[trigger] other.cell(
                row,
                col,
            )) is Some by {
                assert(self.cell(row, col) is Some);
            }
        }
        if other.full() {
            assert forall|row: int, col: int| on_board(row, col) implies (#[trigger] self.cell(
                row,
                col,
            )) is Some by {
                assert(other.cell(row, col) is Some);
            }
        }
    }

    /// The opening position has three rows of three squares, all of them
    /// empty: nobody holds a line in it, and it is not full.
    pub proof fn lemma_start_is_empty(player: Player)
        ensures
            Position::start().wf(),
            forall|row: int, col: int|
                on_board(row, col) ==> (#[trigger] Position::start().cell(row, col)) is None,
            !Position::start().has_line(player),
            !Position::start().full(),
    {
        let start = Position::start();
        start.lemma_line_is_row_column_or_diagonal(player);
        assert forall|row: int| 0 <= row < 3 implies !#[trigger] start.holds_row(player, row) by {
            assert(start.cell(row, 0) is None);
        }
        assert forall|col: int| 0 <= col < 3 implies !#[trigger] start.holds_column(
            player,
            col,
        ) by {
            assert(start.cell(0, col) is None);
        }
    }

    /// A try at a move keeps the shape of the grid. A refused one changes
    /// nothing. An accepted one names a square of the board that was empty,
    /// sets the mover's mark there and leaves the eight other squares as
    /// they were.
    pub proof fn lemma_move_marks_one_square(self, row: int, col: int)
        requires
            self.wf(),
        ensures
            self.after_move(row, col).wf(),
            self.move_result(row, col) is Err ==> self.after_move(row, col) == self,
            self.move_result(row, col) is Ok ==> {
                &&& on_board(row, col)
                &&& self.cell(row, col) is None
                &&& self.after_move(row, col).cell(row, col) == Some(self.turn)
                &&& forall|r: int, c: int|
                    on_board(r, c) && !(r == row && c == col) ==> #[trigger] self.after_move(
                        row,
                        col,
                    ).cell(r, c) == self.cell(r, c)
            },
    {
    }

    /// The turn passes to the opponent when the game goes on after a move,
    /// and only then: after a refused move, a win or a full board it stays
    /// with the player who tried.
    pub proof fn lemma_turn_passes_while_ongoing(self, row: int, col: int)
        ensures
            self.after_move(row, col).turn == if self.move_result(row, col) == Ok::<
                GameState,
                MoveError,
            >(GameState::Ongoing) {
                self.turn.opponent()
            } else {
                self.turn
            },
    {
    }

    /// What a try at a move reports is true. A refusal names what is wrong
    /// with the square. A win is the mover's, who holds a line in the
    /// position left; a full board is full and holds no line of the mover's;
    /// and a game that goes on is neither won by the mover nor full.
    pub proof fn lemma_result_is_true(self, row: int, col: int)
        ensures
            match self.move_result(row, col) {
                Err(MoveError::OutOfBounds) => !on_board(row, col),
                Err(MoveError::TileTaken) => on_board(row, col) && self.cell(row, col) is Some,
                Ok(GameState::Won(winner)) => winner == self.turn && self.after_move(
                    row,
                    col,
                ).has_line(winner),
                Ok(GameState::Full) => self.after_move(row, col).full() && !self.after_move(
                    row,
                    col,
                ).has_line(self.turn),
                Ok(GameState::Ongoing) => !self.after_move(row, col).full() && !self.after_move(
                    row,
                    col,
                ).has_line(self.turn),
            },
    {
        let marked = self.marked(row, col);
        let passed = Position { grid: marked.grid, turn: self.turn.opponent() };
        marked.lemma_turn_is_not_on_the_grid(passed, self.turn);
    }
}

} // verus!
