use tictactoe::show_cell;
use tictactoe::Player::{O, X};
use tictactoe::TicTacToe;

#[test]
fn markers_are_x_and_o() {
    assert_eq!(X.to_char(), 'X');
    assert_eq!(O.to_char(), 'O');
}

#[test]
fn show_cell_draws_the_marker_or_a_blank() {
    assert_eq!(show_cell(Some(X)), 'X');
    assert_eq!(show_cell(Some(O)), 'O');
    assert_eq!(show_cell(None), ' ');
}

#[test]
fn empty_board_is_drawn_as_an_empty_box() {
    let mut text = String::new();
    TicTacToe::new().to_string(&mut text);
    let expected = "\
┏━━━┳━━━┳━━━┓
┃   ┃   ┃   ┃
┣━━━╋━━━╋━━━┫
┃   ┃   ┃   ┃
┣━━━╋━━━╋━━━┫
┃   ┃   ┃   ┃
┗━━━┻━━━┻━━━┛
";
    assert_eq!(text, expected);
}

#[test]
fn marks_are_drawn_in_their_squares() {
    let game = TicTacToe {
        board: [[Some(X), None, Some(O)], [None, Some(O), None], [Some(X), Some(X), None]],
        turn: O,
    };
    let mut text = String::new();
    game.to_string(&mut text);
    let expected = "\
┏━━━┳━━━┳━━━┓
┃ X ┃   ┃ O ┃
┣━━━╋━━━╋━━━┫
┃   ┃ O ┃   ┃
┣━━━╋━━━╋━━━┫
┃ X ┃ X ┃   ┃
┗━━━┻━━━┻━━━┛
";
    assert_eq!(text, expected);
}

#[test]
fn full_board_is_drawn_row_by_row() {
    let game = TicTacToe {
        board: [[Some(X), Some(O), Some(X)], [Some(X), Some(O), Some(O)], [Some(O), Some(X), Some(X)]],
        turn: X,
    };
    let mut text = String::new();
    game.to_string(&mut text);
    let lines: Vec<&str> = text.lines().collect();
    assert_eq!(
        lines,
        vec![
            "┏━━━┳━━━┳━━━┓",
            "┃ X ┃ O ┃ X ┃",
            "┣━━━╋━━━╋━━━┫",
            "┃ X ┃ O ┃ O ┃",
            "┣━━━╋━━━╋━━━┫",
            "┃ O ┃ X ┃ X ┃",
            "┗━━━┻━━━┻━━━┛",
        ]
    );
    assert!(text.ends_with('\n'));
}

#[test]
fn drawing_is_seven_lines_of_thirteen_characters() {
    let mut text = String::new();
    TicTacToe::new().to_string(&mut text);
    assert_eq!(text.chars().count(), 7 * 14);
    for line in text.lines() {
        assert_eq!(line.chars().count(), 13);
    }
    assert_eq!(text.lines().count(), 7);
}

#[test]
fn drawing_is_added_after_what_the_string_held() {
    let game = TicTacToe {
        board: [[None, None, None], [None, Some(X), None], [None, None, None]],
        turn: O,
    };
    let mut alone = String::new();
    game.to_string(&mut alone);
    let mut text = String::from("Board:\n");
    game.to_string(&mut text);
    assert_eq!(text, format!("Board:\n{}", alone));
    game.to_string(&mut text);
    assert_eq!(text, format!("Board:\n{}{}", alone, alone));
}

#[test]
fn drawing_leaves_the_game_as_it_was() {
    let mut game = TicTacToe::new();
    assert!(game.make_move(1, 1).is_ok());
    let before = game.clone();
    let mut first = String::new();
    game.to_string(&mut first);
    let mut second = String::new();
    game.to_string(&mut second);
    assert_eq!(first, second);
    assert_eq!(game, before);
}

#[test]
fn drawing_does_not_depend_on_the_turn() {
    let board = [[Some(O), None, None], [None, None, None], [None, None, Some(X)]];
    let mut for_x = String::new();
    TicTacToe { board, turn: X }.to_string(&mut for_x);
    let mut for_o = String::new();
    TicTacToe { board, turn: O }.to_string(&mut for_o);
    assert_eq!(for_x, for_o);
}
