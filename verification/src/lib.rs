//! A verified engine for the pencil-and-paper game of noughts and crosses.
//!
//! The rules are stated once, as mathematics, in [`rules`]: what a position is,
//! which lines win, when a move is refused and what follows an accepted one.
//! [`game`] holds the executable engine, each of whose operations is proved to
//! do what the rules say. [`render`] draws a board as boxed text and
//! [`session`] reads a typed move and words the messages of a game played at a
//! terminal. What is assumed of the standard library beyond vstd is in
//! [`std_specs`].

pub mod player;
pub mod rules;
pub mod game;
pub mod render;
pub mod session;
pub mod std_specs;

pub use crate::game::TicTacToe;
pub use crate::player::show_cell;
pub use crate::player::Player;
pub use crate::rules::GameState;
pub use crate::rules::MoveError;
pub use crate::rules::Position;
