//! What a game played at a terminal says and understands: the typed form of
//! a move, the line that asks for the next one, and the messages for a
//! refused move and for the end of the game. Reading and printing are left
//! to the program that runs the game.

use crate::game::TicTacToe;
use crate::player::Player;
use crate::rules::GameState;
use crate::rules::MoveError;
use vstd::prelude::*;

verus! {

/// The number that a typed character stands for: a decimal digit stands for
/// its value, any other character for nothing.
pub open spec fn digit_value(c: char) -> Option<usize> {
    if '0' <= c <= '9' {
        Some((c as int - '0' as int) as usize)
    } else {
        None
    }
}

/// The move that a typed line stands for. The first character is the row
/// and the third the column, both as digits; the second, which separates
/// them, and all that follows the third are not looked at. A line of fewer
/// than three characters, or with another character where a digit belongs,
/// stands for no move.
pub open spec fn typed_move(line: Seq<char>) -> Option<(usize, usize)> {
    if line.len() >= 3 && digit_value(line[0]) is Some && digit_value(line[2]) is Some {
        Some((digit_value(line[0])->0, digit_value(line[2])->0))
    } else {
        None
    }
}

/// The line that asks `turn` for a move.
pub open spec fn prompt_text(turn: Player) -> Seq<char> {
    "Player to move: "@.push(turn.to_char())
}

/// The message that ends the game, where `state` ends it.
pub open spec fn closing_text(state: GameState) -> Option<Seq<char>> {
    match state {
        GameState::Won(player) => Some(
            "Game over! Player "@.push(player.to_char()) + " has won!"@,
        ),
        GameState::Full => Some("Game over! It's a draw"@),
        GameState::Ongoing => None,
    }
}

/// The value of a typed digit.
fn read_digit(c: char) -> (value: Option<usize>)
    ensures
        value == digit_value(c),
{
    let code: u32 = c as u32;
    let zero: u32 = '0' as u32;
    let nine: u32 = '9' as u32;
    if zero <= code && code <= nine {
        Some((code - zero) as usize)
    } else {
        None
    }
}

/// Reads a move as a player types it: a row digit, one separating character
/// and a column digit, as in `"0 2"`. What follows the column, such as the
/// end of the line, is ignored. Digits above 2 are read as they are; it is
/// the engine that refuses them. Gives `None` for a line that is too short
/// or has no digit in the first or third place.
pub fn parse_move(line: &str) -> (parsed: Option<(usize, usize)>)
    ensures
        parsed == typed_move(line@),
{
    if line.unicode_len() < 3 {
        return None;
    }
    let row = read_digit(line.get_char(0));
    let col = read_digit(line.get_char(2));
    match (row, col) {
        (Some(row), Some(col)) => Some((row, col)),
        _ => None,
    }
}

impl TicTacToe {
    /// The line that asks for the next move and names the player who is to
    /// make it, as in `"Player to move: X"`.
    pub fn prompt(&self) -> (text: String)
        ensures
            text@ == prompt_text(self.turn),
    {
        let mut text = String::new();
        text.append("Player to move: ");
        text.push(self.turn.to_char());
        text
    }
}

impl GameState {
    /// Whether this outcome ends the game: a win or a full board does, and
    /// after either no further move should be tried.
    pub open spec fn spec_is_over(&self) -> bool {
        *self is Won || *self is Full
    }

    /// Whether this outcome ends the game.
    #[verifier::when_used_as_spec(spec_is_over)]
    pub fn is_over(&self) -> (over: bool)
        ensures
            over == self.spec_is_over(),
    {
        match self {
            GameState::Won(_) => true,
            GameState::Full => true,
            GameState::Ongoing => false,
        }
    }

    /// The message that ends the game: who has won, or that it is a draw.
    /// There is none while the game goes on.
    pub fn closing_message(&self) -> (message: Option<String>)
        ensures
            message is Some <==> self.is_over(),
            match message {
                Some(text) => closing_text(*self) == Some(text@),
                None => closing_text(*self) is None,
            },
    {
        match self {
            GameState::Won(player) => {
                let mut text = String::new();
                text.append("Game over! Player ");
                text.push(player.to_char());
                text.append(" has won!");
                Some(text)
            },
            GameState::Full => {
                let mut text = String::new();
                text.append("Game over! It's a draw");
                Some(text)
            },
            GameState::Ongoing => None,
        }
    }
}

impl MoveError {
    /// The words for this refusal.
    pub open spec fn spec_message(&self) -> Seq<char> {
        match *self {
            MoveError::OutOfBounds => "Tile out of bounds!"@,
            MoveError::TileTaken => "Tile already taken!"@,
        }
    }

    /// The words that tell a player why the move was refused.
    pub fn message(&self) -> (text: &'static str)
        ensures
            text@ == self.spec_message(),
    {
        match self {
            MoveError::OutOfBounds => "Tile out of bounds!",
            MoveError::TileTaken => "Tile already taken!",
        }
    }
}

} // verus!
