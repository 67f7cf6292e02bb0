use tictactoe::session::parse_move;
use tictactoe::GameState;
use tictactoe::MoveError;
use tictactoe::Player::{O, X};
use tictactoe::TicTacToe;

#[test]
fn typed_move_is_row_separator_column() {
    assert_eq!(parse_move("0 2"), Some((0, 2)));
    assert_eq!(parse_move("1,1"), Some((1, 1)));
    assert_eq!(parse_move("2-0"), Some((2, 0)));
    assert_eq!(parse_move("201"), Some((2, 1)));
}

#[test]
fn end_of_line_and_what_follows_the_column_are_ignored() {
    assert_eq!(parse_move("0 2\n"), Some((0, 2)));
    assert_eq!(parse_move("1 0\r\n"), Some((1, 0)));
    assert_eq!(parse_move("2 2 and more"), Some((2, 2)));
}

#[test]
fn separator_may_be_any_character() {
    assert_eq!(parse_move("1┃2"), Some((1, 2)));
    assert_eq!(parse_move("0é1"), Some((0, 1)));
}

#[test]
fn digits_above_two_are_read_and_refused_by_the_engine() {
    assert_eq!(parse_move("3 0"), Some((3, 0)));
    assert_eq!(parse_move("0 9"), Some((0, 9)));
    assert_eq!(parse_move("9 9"), Some((9, 9)));
    let mut game = TicTacToe::new();
    let (row, col) = parse_move("3 0\n").unwrap();
    assert_eq!(game.make_move(row, col), Err(MoveError::OutOfBounds));
}

#[test]
fn short_lines_are_no_move() {
    assert_eq!(parse_move(""), None);
    assert_eq!(parse_move("\n"), None);
    assert_eq!(parse_move("1"), None);
    assert_eq!(parse_move("12"), None);
    assert_eq!(parse_move("1 "), None);
    assert_eq!(parse_move("é1"), None);
}

#[test]
fn other_characters_in_place_of_digits_are_no_move() {
    assert_eq!(parse_move("a 1"), None);
    assert_eq!(parse_move("1 b"), None);
    assert_eq!(parse_move(" 12"), None);
    assert_eq!(parse_move("/ 1"), None);
    assert_eq!(parse_move("1 :"), None);
    assert_eq!(parse_move("-1 2"), None);
    assert_eq!(parse_move("1  2"), None);
    assert_eq!(parse_move("٣ 1"), None);
}

#[test]
fn typed_moves_drive_a_game() {
    let mut game = TicTacToe::new();
    let mut last = None;
    for line in ["0 0\n", "1 0\n", "0 1\n", "1 1\n", "0 2\n"] {
        let (row, col) = parse_move(line).unwrap();
        last = Some(game.make_move(row, col));
    }
    assert_eq!(last, Some(Ok(GameState::Won(X))));
}

#[test]
fn prompt_names_the_player_to_move() {
    let mut game = TicTacToe::new();
    assert_eq!(game.prompt(), "Player to move: X");
    assert_eq!(game.make_move(0, 0), Ok(GameState::Ongoing));
    assert_eq!(game.prompt(), "Player to move: O");
}

#[test]
fn a_win_and_a_full_board_end_the_game() {
    assert!(GameState::Won(X).is_over());
    assert!(GameState::Won(O).is_over());
    assert!(GameState::Full.is_over());
    assert!(!GameState::Ongoing.is_over());
}

#[test]
fn closing_message_names_the_winner_or_the_draw() {
    assert_eq!(
        GameState::Won(X).closing_message(),
        Some(String::from("Game over! Player X has won!"))
    );
    assert_eq!(
        GameState::Won(O).closing_message(),
        Some(String::from("Game over! Player O has won!"))
    );
    assert_eq!(GameState::Full.closing_message(), Some(String::from("Game over! It's a draw")));
    assert_eq!(GameState::Ongoing.closing_message(), None);
}

#[test]
fn refusals_have_their_words() {
    assert_eq!(MoveError::OutOfBounds.message(), "Tile out of bounds!");
    assert_eq!(MoveError::TileTaken.message(), "Tile already taken!");
}
