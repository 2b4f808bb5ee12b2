use tictactoe::outcome::these_win;
use tictactoe::render::cell_str;
use tictactoe::Symbol::{O, X};
use tictactoe::{Cell, GameState, MoveError, Symbol, TicTacToe};

const BLANK: &str = "+---+\n|   |\n|   |\n|   |\n+---+\n";

fn board_of(rows: [&str; 3]) -> TicTacToe {
    let mut game = TicTacToe::new();
    for r in 0..3 {
        for (c, ch) in rows[r].chars().enumerate() {
            game.board[r][c] = match ch {
                'X' => Some(X),
                'O' => Some(O),
                _ => None,
            };
        }
    }
    game
}

#[test]
fn fresh_game_is_blank_and_in_progress() {
    let game = TicTacToe::new();
    assert_eq!(game.current_state(), GameState::InProgress);
    assert_eq!(game.render(), BLANK);
    assert_eq!(game.whose_turn, X);
    for r in 0..3 {
        for c in 0..3 {
            assert_eq!(game.board[r][c], None);
        }
    }
}

#[test]
fn first_move_on_any_square_succeeds_and_shows_x() {
    for r in 0..3 {
        for c in 0..3 {
            let mut game = TicTacToe::new();
            assert_eq!(game.go_indices(r, c), Ok(GameState::InProgress));
            assert_eq!(game.board[r][c], Some(X));
            assert_eq!(game.whose_turn, O);
            let text = game.render();
            assert_eq!(text.len(), 30);
            for i in 0..3 {
                for j in 0..3 {
                    let shown = text.as_bytes()[7 + 6 * i + j];
                    if (i, j) == (r, c) {
                        assert_eq!(shown, b'X');
                    } else {
                        assert_eq!(shown, b' ');
                    }
                }
            }
        }
    }
}

#[test]
fn move_on_occupied_square_is_refused_and_changes_nothing() {
    let mut game = TicTacToe::new();
    game.go_indices(1, 1).unwrap();
    let text = game.render();
    let cells = game.board;
    assert_eq!(game.go_indices(1, 1), Err(MoveError::OccupiedCell));
    assert_eq!(game.go_index(4), Err(MoveError::OccupiedCell));
    assert_eq!(game.render(), text);
    assert_eq!(game.board, cells);
    assert_eq!(game.whose_turn, O);
    assert_eq!(game.go_indices(0, 0), Ok(GameState::InProgress));
    assert_eq!(game.board[0][0], Some(O));
}

#[test]
fn move_off_the_board_is_refused_and_changes_nothing() {
    let mut game = TicTacToe::new();
    game.go_indices(0, 0).unwrap();
    let text = game.render();
    let cells = game.board;
    assert_eq!(game.go_indices(3, 0), Err(MoveError::OutOfRange));
    assert_eq!(game.go_indices(0, 3), Err(MoveError::OutOfRange));
    assert_eq!(game.go_indices(3, 3), Err(MoveError::OutOfRange));
    assert_eq!(game.go_indices(usize::MAX, 1), Err(MoveError::OutOfRange));
    assert_eq!(game.go_indices(1, usize::MAX), Err(MoveError::OutOfRange));
    assert_eq!(game.go_index(9), Err(MoveError::OutOfRange));
    assert_eq!(game.go_index(usize::MAX), Err(MoveError::OutOfRange));
    assert_eq!(game.render(), text);
    assert_eq!(game.board, cells);
    assert_eq!(game.whose_turn, O);
}

#[test]
fn out_of_range_comes_before_occupied() {
    let mut game = board_of(["XXX", "XXX", "XXX"]);
    assert_eq!(game.go_indices(3, 0), Err(MoveError::OutOfRange));
    assert_eq!(game.go_index(9), Err(MoveError::OutOfRange));
    assert_eq!(game.go_indices(2, 2), Err(MoveError::OccupiedCell));
}

#[test]
fn turns_alternate() {
    let mut game = TicTacToe::new();
    assert_eq!(game.whose_turn, X);
    game.go_indices(0, 0).unwrap();
    assert_eq!(game.whose_turn, O);
    game.go_indices(2, 1).unwrap();
    assert_eq!(game.whose_turn, X);
    assert_eq!(game.board[0][0], Some(X));
    assert_eq!(game.board[2][1], Some(O));
    assert_eq!(game.render(), "+---+\n|X  |\n|   |\n| O |\n+---+\n");
    game.go_indices(1, 1).unwrap();
    assert_eq!(game.board[1][1], Some(X));
    assert_eq!(game.whose_turn, O);
}

#[test]
fn refused_move_does_not_pass_the_turn() {
    let mut game = TicTacToe::new();
    game.go_indices(0, 0).unwrap();
    assert!(game.go_indices(0, 0).is_err());
    assert!(game.go_indices(5, 5).is_err());
    game.go_indices(0, 1).unwrap();
    assert_eq!(game.board[0][1], Some(O));
}

#[test]
fn index_names_row_and_column() {
    for pos in 0..9 {
        let mut game = TicTacToe::new();
        assert_eq!(game.go_index(pos), Ok(GameState::InProgress));
        for r in 0..3 {
            for c in 0..3 {
                let expected = if 3 * r + c == pos { Some(X) } else { None };
                assert_eq!(game.board[r][c], expected);
            }
        }
    }
    let mut game = TicTacToe::new();
    game.go_index(5).unwrap();
    assert_eq!(game.board[1][2], Some(X));
    game.go_index(6).unwrap();
    assert_eq!(game.board[2][0], Some(O));
}

#[test]
fn o_wins_by_index() {
    let mut game = TicTacToe::new();
    assert_eq!(game.go_index(4), Ok(GameState::InProgress));
    assert_eq!(game.go_index(5), Ok(GameState::InProgress));
    assert_eq!(game.go_index(6), Ok(GameState::InProgress));
    assert_eq!(game.go_index(2), Ok(GameState::InProgress));
    assert_eq!(game.go_index(0), Ok(GameState::InProgress));
    assert_eq!(game.go_index(8), Ok(GameState::Win(O)));
    assert_eq!(game.current_state(), GameState::Win(O));
    assert_eq!(game.render(), "+---+\n|X O|\n| XO|\n|X O|\n+---+\n");
}

#[test]
fn x_wins_on_the_falling_diagonal() {
    let mut game = TicTacToe::new();
    let order = [(0, 0), (0, 2), (0, 1), (1, 0), (1, 1), (1, 2), (2, 0), (2, 1)];
    for (r, c) in order {
        assert_eq!(game.go_indices(r, c), Ok(GameState::InProgress));
    }
    assert_eq!(game.go_indices(2, 2), Ok(GameState::Win(X)));
}

#[test]
fn full_board_without_a_line_is_a_draw() {
    let mut game = TicTacToe::new();
    let order = [(0, 0), (0, 1), (0, 2), (1, 1), (1, 0), (1, 2), (2, 1), (2, 0)];
    for (r, c) in order {
        assert_eq!(game.go_indices(r, c), Ok(GameState::InProgress));
    }
    assert_eq!(game.go_indices(2, 2), Ok(GameState::Draw));
    assert_eq!(game.current_state(), GameState::Draw);
    assert_eq!(game.render(), "+---+\n|XOX|\n|XOO|\n|OXX|\n+---+\n");
    for pos in 0..9 {
        assert_eq!(game.go_index(pos), Err(MoveError::OccupiedCell));
    }
    assert_eq!(game.current_state(), GameState::Draw);
}

#[test]
fn queries_repeat() {
    let mut game = TicTacToe::new();
    game.go_indices(1, 1).unwrap();
    game.go_indices(0, 2).unwrap();
    let state = game.current_state();
    let text = game.render();
    for _ in 0..3 {
        assert_eq!(game.current_state(), state);
        assert_eq!(game.render(), text);
    }
    assert_eq!(state, GameState::InProgress);
    assert_eq!(text, "+---+\n|  O|\n| X |\n|   |\n+---+\n");
}

#[test]
fn every_line_wins() {
    let won = [
        ["XXX", "   ", "   "],
        ["   ", "XXX", "   "],
        ["   ", "   ", "XXX"],
        ["X  ", "X  ", "X  "],
        [" X ", " X ", " X "],
        ["  X", "  X", "  X"],
        ["X  ", " X ", "  X"],
        ["  X", " X ", "X  "],
    ];
    for rows in won {
        assert_eq!(board_of(rows).current_state(), GameState::Win(X));
        let swapped = [
            rows[0].replace('X', "O"),
            rows[1].replace('X', "O"),
            rows[2].replace('X', "O"),
        ];
        let game = board_of([&swapped[0], &swapped[1], &swapped[2]]);
        assert_eq!(game.current_state(), GameState::Win(O));
    }
}

#[test]
fn two_of_a_kind_do_not_win() {
    assert_eq!(board_of(["XX ", "   ", "   "]).current_state(), GameState::InProgress);
    assert_eq!(board_of(["XXO", "   ", "   "]).current_state(), GameState::InProgress);
    assert_eq!(board_of(["X  ", " O ", "  X"]).current_state(), GameState::InProgress);
    assert_eq!(board_of(["XOX", "XOO", "OX "]).current_state(), GameState::InProgress);
    assert_eq!(board_of(["XOX", "XOO", "OXX"]).current_state(), GameState::Draw);
}

#[test]
fn lines_are_read_rows_then_columns_then_diagonals() {
    assert_eq!(board_of(["XXX", "OOO", "   "]).current_state(), GameState::Win(X));
    assert_eq!(board_of(["OOO", "XXX", "   "]).current_state(), GameState::Win(O));
    assert_eq!(board_of(["   ", "XXX", "OOO"]).current_state(), GameState::Win(X));
    assert_eq!(board_of(["XO ", "XO ", "XO "]).current_state(), GameState::Win(X));
    assert_eq!(board_of(["OX ", "OX ", "OX "]).current_state(), GameState::Win(O));
    assert_eq!(board_of([" XO", " XO", " XO"]).current_state(), GameState::Win(X));
    assert_eq!(board_of(["OXX", "OXO", "OOX"]).current_state(), GameState::Win(O));
    assert_eq!(board_of(["XOO", "XXO", "OXX"]).current_state(), GameState::Win(X));
    assert_eq!(board_of(["XXX", "XOO", "XOO"]).current_state(), GameState::Win(X));
    assert_eq!(board_of(["XXO", "XOX", "OOO"]).current_state(), GameState::Win(O));
}

#[test]
fn a_won_game_stays_won_if_play_goes_on() {
    let mut game = TicTacToe::new();
    let order = [(0, 2), (0, 1), (1, 2), (1, 1)];
    for (r, c) in order {
        assert_eq!(game.go_indices(r, c), Ok(GameState::InProgress));
    }
    assert_eq!(game.go_indices(2, 2), Ok(GameState::Win(X)));
    let after = game.go_indices(0, 0).unwrap();
    assert_eq!(after, GameState::Win(X));
    assert_eq!(game.board[0][0], Some(O));
}

#[test]
fn a_later_line_read_earlier_takes_the_win() {
    let mut game = TicTacToe::new();
    let order = [(0, 2), (0, 1), (1, 2), (1, 1)];
    for (r, c) in order {
        assert_eq!(game.go_indices(r, c), Ok(GameState::InProgress));
    }
    assert_eq!(game.go_indices(2, 2), Ok(GameState::Win(X)));
    assert_eq!(game.go_indices(2, 1), Ok(GameState::Win(O)));
    assert_eq!(game.current_state(), GameState::Win(O));
}

#[test]
fn is_full_counts_every_square() {
    assert!(!TicTacToe::new().is_full());
    assert!(board_of(["XOX", "XOO", "OXX"]).is_full());
    for r in 0..3 {
        for c in 0..3 {
            let mut game = board_of(["XOX", "XOO", "OXX"]);
            game.board[r][c] = None;
            assert!(!game.is_full());
        }
    }
}

#[test]
fn these_win_wants_three_equal_marks() {
    let cells: [Cell; 3] = [None, Some(X), Some(O)];
    for a in cells {
        for b in cells {
            for c in cells {
                let expected = if a == b && b == c { a } else { None };
                assert_eq!(these_win(a, b, c), expected);
            }
        }
    }
    assert_eq!(these_win(Some(X), Some(X), Some(X)), Some(X));
    assert_eq!(these_win(Some(O), Some(O), Some(O)), Some(O));
    assert_eq!(these_win(None, None, None), None);
}

#[test]
fn symbols_and_their_glyphs() {
    assert_eq!(X.other(), O);
    assert_eq!(O.other(), X);
    assert_eq!(X.to_char(), 'X');
    assert_eq!(O.to_char(), 'O');
    assert_eq!(cell_str(None), " ");
    assert_eq!(cell_str(Some(Symbol::X)), "X");
    assert_eq!(cell_str(Some(Symbol::O)), "O");
}
