//! The two players and the marks they leave on the board.

use vstd::prelude::*;

verus! {

/// One of the two sides. `X` moves first.
#[derive(Clone, Copy, PartialEq, Eq, Structural, Debug)]
pub enum Player {
    X,
    O,
}

impl Player {
    /// The other side.
    pub open spec fn spec_opponent(&self) -> Player {
        match *self {
            Player::X => Player::O,
            Player::O => Player::X,
        }
    }

    /// The character that marks a square held by this player.
    pub open spec fn spec_to_char(&self) -> char {
        match *self {
            Player::X => 'X',
            Player::O => 'O',
        }
    }

    /// The player who moves after this one.
    #[verifier::when_used_as_spec(spec_opponent)]
    pub fn opponent(&self) -> (other: Player)
        ensures
            other == self.spec_opponent(),
    {
        match self {
            Player::X => Player::O,
            Player::O => Player::X,
        }
    }

    /// This player's marker, `'X'` or `'O'`.
    #[verifier::when_used_as_spec(spec_to_char)]
    pub fn to_char(&self) -> (marker: char)
        ensures
            marker == self.spec_to_char(),
    {
        match self {
            Player::X => 'X',
            Player::O => 'O',
        }
    }

    /// Taking the opponent twice gives the player back, and nobody is their
    /// own opponent.
    pub proof fn lemma_opponent_involutive(self)
        ensures
            self.opponent().opponent() == self,
            self.opponent() != self,
    {
    }

    /// The two markers differ, and neither is the blank of an empty square.
    pub proof fn lemma_markers_distinct(self, other: Player)
        ensures
            self.to_char() == other.to_char() <==> self == other,
            self.to_char() != ' ',
    {
    }
}

/// The character drawn in a square: the holder's marker, or a blank.
pub open spec fn spec_show_cell(cell: Option<Player>) -> char {
    match cell {
        Some(player) => player.to_char(),
        None => ' ',
    }
}

/// The character to draw for a square of the board.
#[verifier::when_used_as_spec(spec_show_cell)]
pub fn show_cell(player: Option<Player>) -> (shown: char)
    ensures
        shown == spec_show_cell(player),
{
    if let Some(p) = player {
        return p.to_char();
    }
    ' '
}

} // verus!
