//! The board as boxed text.

use crate::game::TicTacToe;
use crate::player::show_cell;
use crate::rules::Position;
use vstd::prelude::*;

verus! {

/// The line of text that shows one row of the board: its three squares
/// between upright bars, each square as its marker or a blank.
pub open spec fn row_text(position: Position, row: int) -> Seq<char> {
    "┃ "@.push(show_cell(position.cell(row, 0))) + " ┃ "@.push(show_cell(position.cell(row, 1)))
        + " ┃ "@.push(show_cell(position.cell(row, 2))) + " ┃\n"@
}

/// The whole board as text: a top border, the three rows with a divider
/// between one row and the next, and a bottom border, each on a line of its
/// own.
pub open spec fn board_text(position: Position) -> Seq<char> {
    "┏━━━┳━━━┳━━━┓\n"@ + row_text(position, 0) + "┣━━━╋━━━╋━━━┫\n"@ + row_text(position, 1)
        + "┣━━━╋━━━╋━━━┫\n"@ + row_text(position, 2) + "┗━━━┻━━━┻━━━┛\n"@
}

/// The top border and the first `rows` rows, each but the last row of the
/// board followed by a divider.
spec fn text_above(position: Position, rows: int) -> Seq<char>
    decreases rows,
{
    if rows <= 0 {
        "┏━━━┳━━━┳━━━┓\n"@
    } else if rows == 3 {
        text_above(position, rows - 1) + row_text(position, rows - 1)
    } else {
        text_above(position, rows - 1) + row_text(position, rows - 1) + "┣━━━╋━━━╋━━━┫\n"@
    }
}

impl TicTacToe {
    /// Draws the board at the end of `f`. What `f` held before stays in
    /// front of the drawing.
    pub fn to_string(&self, f: &mut String)
        ensures
            final(f)@ == old(f)@ + board_text(self@),
    {
        f.append("┏━━━┳━━━┳━━━┓\n");
        for row in 0..3usize
            invariant
                f@ == old(f)@ + text_above(self@, row as int),
        {
            f.append("┃ ");
            f.push(show_cell(self.board[row][0]));
            f.append(" ┃ ");
            f.push(show_cell(self.board[row][1]));
            f.append(" ┃ ");
            f.push(show_cell(self.board[row][2]));
            f.append(" ┃\n");
            if row != 2 {
                f.append("┣━━━╋━━━╋━━━┫\n");
            }
        }
        f.append("┗━━━┻━━━┻━━━┛\n");
        proof {
            reveal_with_fuel(text_above, 4);
        }
    }
}

} // verus!
