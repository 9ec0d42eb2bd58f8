use shuttlings_cch24::board::{Board, BoardError, Team, TileState};
use shuttlings_cch24::status::{Answer, Status};

const EMPTY: &str = "⬜⬛⬛⬛⬛⬜\n⬜⬛⬛⬛⬛⬜\n⬜⬛⬛⬛⬛⬜\n⬜⬛⬛⬛⬛⬜\n⬜⬜⬜⬜⬜⬜\n";

fn play(board: &mut Board, moves: &[(&str, &str)]) -> Answer {
    let mut last = None;
    for (team, column) in moves {
        last = Some(board.place(team, column));
    }
    last.unwrap()
}

#[test]
fn new_board_is_empty_drawn_and_unwon() {
    let board = Board::new();
    assert_eq!(board.raw_representation(), EMPTY);
    assert_eq!(board.winning_team(), None);
    assert!(!board.full());
    assert!(!board.winner());
    assert_eq!(board.show(), EMPTY);
}

#[test]
fn teams_are_named_cookie_and_milk() {
    assert_eq!(Team::from_name("cookie"), Some(Team::Cookie));
    assert_eq!(Team::from_name("milk"), Some(Team::Milk));
    assert_eq!(Team::from_name("Milk"), None);
    assert_eq!(Team::from_name("cookies"), None);
    assert_eq!(Team::from_name(""), None);
    assert_eq!(Team::try_from("cookie".to_string()), Ok(Team::Cookie));
    assert_eq!(Team::try_from("milk".to_string()), Ok(Team::Milk));
    assert_eq!(Team::try_from("tea".to_string()), Err("Invalid value"));
}

#[test]
fn symbols_and_tiles() {
    assert_eq!(Team::Cookie.symbol(), "🍪");
    assert_eq!(Team::Milk.symbol(), "🥛");
    assert_eq!(TileState::Empty.symbol(), "⬛");
    assert_eq!(TileState::Cookie.symbol(), "🍪");
    assert_eq!(TileState::Milk.symbol(), "🥛");
    assert_eq!(Team::Cookie.tile(), TileState::Cookie);
    assert_eq!(Team::Milk.tile(), TileState::Milk);
}

#[test]
fn pieces_stack_from_the_bottom() {
    let mut board = Board::new();
    assert_eq!(board.set_position(&Team::Cookie, 1), Ok(()));
    assert_eq!(board.set_position(&Team::Milk, 1), Ok(()));
    assert_eq!(board.set_position(&Team::Milk, 4), Ok(()));
    assert_eq!(board.raw_representation(), EMPTY);
    board.grid_update();
    assert_eq!(
        board.raw_representation(),
        "⬜⬛⬛⬛⬛⬜\n⬜⬛⬛⬛⬛⬜\n⬜🥛⬛⬛⬛⬜\n⬜🍪⬛⬛🥛⬜\n⬜⬜⬜⬜⬜⬜\n"
    );
}

#[test]
fn a_full_column_takes_no_piece() {
    let mut board = Board::new();
    for _ in 0..4 {
        assert_eq!(board.set_position(&Team::Cookie, 2), Ok(()));
    }
    assert_eq!(board.set_position(&Team::Milk, 2), Err(BoardError::FullColumn));
    board.grid_update();
    assert_eq!(
        board.raw_representation(),
        "⬜⬛🍪⬛⬛⬜\n⬜⬛🍪⬛⬛⬜\n⬜⬛🍪⬛⬛⬜\n⬜⬛🍪⬛⬛⬜\n⬜⬜⬜⬜⬜⬜\n"
    );
}

#[test]
fn four_in_a_column_win() {
    let mut board = Board::new();
    for _ in 0..3 {
        board.set_position(&Team::Milk, 3).unwrap();
        assert!(!board.column_winner());
    }
    board.set_position(&Team::Milk, 3).unwrap();
    assert!(board.column_winner());
    assert!(!board.row_winner());
    assert!(!board.diagonal_winner());
    assert!(board.winner());
}

#[test]
fn a_mixed_column_does_not_win() {
    let mut board = Board::new();
    board.set_position(&Team::Milk, 3).unwrap();
    board.set_position(&Team::Cookie, 3).unwrap();
    board.set_position(&Team::Milk, 3).unwrap();
    board.set_position(&Team::Milk, 3).unwrap();
    assert!(!board.column_winner());
    assert!(!board.winner());
}

#[test]
fn four_in_a_row_win() {
    let mut board = Board::new();
    for column in 1..=3 {
        board.set_position(&Team::Cookie, column).unwrap();
        assert!(!board.row_winner());
    }
    board.set_position(&Team::Cookie, 4).unwrap();
    assert!(board.row_winner());
    assert!(!board.column_winner());
    assert!(!board.diagonal_winner());
    assert!(board.winner());
}

#[test]
fn four_on_the_rising_diagonal_win() {
    let mut board = Board::new();
    for column in 1..=4usize {
        for _ in 1..column {
            board.set_position(&Team::Milk, column).unwrap();
        }
    }
    for column in 1..=3 {
        board.set_position(&Team::Cookie, column).unwrap();
    }
    assert!(!board.diagonal_winner());
    board.set_position(&Team::Cookie, 4).unwrap();
    assert!(board.diagonal_winner());
    assert!(board.winner());
}

#[test]
fn four_on_the_falling_diagonal_win() {
    let mut board = Board::new();
    for column in 1..=4usize {
        for _ in 0..(4 - column) {
            board.set_position(&Team::Cookie, column).unwrap();
        }
    }
    for column in 1..=4 {
        assert!(!board.diagonal_winner());
        board.set_position(&Team::Milk, column).unwrap();
    }
    assert!(board.diagonal_winner());
    assert!(board.winner());
}

#[test]
fn an_empty_line_does_not_win() {
    let board = Board::new();
    assert!(!board.column_winner());
    assert!(!board.row_winner());
    assert!(!board.diagonal_winner());
}

#[test]
fn full_means_no_free_tile() {
    let mut board = Board::new();
    for column in 1..=4 {
        for _ in 0..4 {
            assert!(!board.full());
            board.set_position(&Team::Milk, column).unwrap();
        }
    }
    assert!(board.full());
}

#[test]
fn a_move_answers_with_the_new_picture() {
    let mut board = Board::new();
    let answer = board.place("cookie", "1");
    assert_eq!(answer.status, Status::Success);
    assert_eq!(
        answer.body,
        "⬜⬛⬛⬛⬛⬜\n⬜⬛⬛⬛⬛⬜\n⬜⬛⬛⬛⬛⬜\n⬜🍪⬛⬛⬛⬜\n⬜⬜⬜⬜⬜⬜\n"
    );
    assert_eq!(board.raw_representation(), &answer.body);
    assert_eq!(board.show(), answer.body);
}

#[test]
fn an_unknown_team_or_column_is_a_bad_request() {
    let mut board = Board::new();
    for (team, column) in [
        ("tea", "1"),
        ("Cookie", "1"),
        ("cookie", "0"),
        ("cookie", "5"),
        ("cookie", "255"),
        ("cookie", "256"),
        ("cookie", "-1"),
        ("cookie", "one"),
        ("cookie", ""),
        ("cookie", " 1"),
        ("cookie", "1.0"),
    ] {
        let answer = board.place(team, column);
        assert_eq!(answer.status, Status::BadRequest, "{} {}", team, column);
        assert_eq!(answer.body, "");
    }
    assert_eq!(board.raw_representation(), EMPTY);
}

#[test]
fn a_column_may_be_spelt_as_any_decimal_number() {
    let mut board = Board::new();
    assert_eq!(board.place("milk", "+2").status, Status::Success);
    assert_eq!(board.place("milk", "02").status, Status::Success);
    assert_eq!(board.place("milk", "002").status, Status::Success);
    assert_eq!(
        board.raw_representation(),
        "⬜⬛⬛⬛⬛⬜\n⬜⬛🥛⬛⬛⬜\n⬜⬛🥛⬛⬛⬜\n⬜⬛🥛⬛⬛⬜\n⬜⬜⬜⬜⬜⬜\n"
    );
}

#[test]
fn place_at_checks_the_column() {
    let mut board = Board::new();
    assert_eq!(board.place_at(Team::Milk, 0).status, Status::BadRequest);
    assert_eq!(board.place_at(Team::Milk, 5).status, Status::BadRequest);
    assert_eq!(board.place_at(Team::Milk, 4).status, Status::Success);
    assert_eq!(
        board.raw_representation(),
        "⬜⬛⬛⬛⬛⬜\n⬜⬛⬛⬛⬛⬜\n⬜⬛⬛⬛⬛⬜\n⬜⬛⬛⬛🥛⬜\n⬜⬜⬜⬜⬜⬜\n"
    );
}

#[test]
fn the_winning_move_names_the_winner() {
    let mut board = Board::new();
    let answer = play(&mut board, &[("cookie", "1"), ("cookie", "1"), ("cookie", "1"), ("cookie", "1")]);
    let picture = "⬜🍪⬛⬛⬛⬜\n⬜🍪⬛⬛⬛⬜\n⬜🍪⬛⬛⬛⬜\n⬜🍪⬛⬛⬛⬜\n⬜⬜⬜⬜⬜⬜\n";
    assert_eq!(answer.status, Status::Success);
    assert_eq!(answer.body, format!("{}🍪 wins!\n", picture));
    assert_eq!(board.winning_team(), Some(Team::Cookie));
    assert_eq!(board.show(), format!("{}🍪 wins!\n", picture));
}

#[test]
fn a_won_game_takes_no_more_moves() {
    let mut board = Board::new();
    play(&mut board, &[("milk", "1"), ("milk", "2"), ("milk", "3"), ("milk", "4")]);
    let picture = "⬜⬛⬛⬛⬛⬜\n⬜⬛⬛⬛⬛⬜\n⬜⬛⬛⬛⬛⬜\n⬜🥛🥛🥛🥛⬜\n⬜⬜⬜⬜⬜⬜\n";
    let answer = board.place("cookie", "1");
    assert_eq!(answer.status, Status::ServiceUnavailable);
    assert_eq!(answer.body, format!("{}🥛 wins!\n", picture));
    assert_eq!(board.raw_representation(), picture);
    assert_eq!(board.winning_team(), Some(Team::Milk));
}

#[test]
fn a_full_column_is_unavailable() {
    let mut board = Board::new();
    play(&mut board, &[("milk", "1"), ("cookie", "1"), ("milk", "1"), ("cookie", "1")]);
    let picture = board.raw_representation().clone();
    let answer = board.place("milk", "1");
    assert_eq!(answer.status, Status::ServiceUnavailable);
    assert_eq!(answer.body, "");
    assert_eq!(board.raw_representation(), &picture);
}

fn fill_without_winner(board: &mut Board) -> Answer {
    // Each column from the bottom up, arranged so that no line is won.
    let columns: [[&str; 4]; 4] = [
        ["milk", "cookie", "cookie", "cookie"],
        ["cookie", "milk", "milk", "milk"],
        ["milk", "milk", "cookie", "cookie"],
        ["cookie", "cookie", "milk", "cookie"],
    ];
    let mut last = None;
    for (c, column) in columns.iter().enumerate() {
        for team in column {
            last = Some(board.place(team, &format!("{}", c + 1)));
        }
    }
    last.unwrap()
}

#[test]
fn a_board_filled_without_a_line_has_no_winner() {
    let mut board = Board::new();
    let answer = fill_without_winner(&mut board);
    let picture = "⬜🍪🥛🍪🍪⬜\n⬜🍪🥛🍪🥛⬜\n⬜🍪🥛🥛🍪⬜\n⬜🥛🍪🥛🍪⬜\n⬜⬜⬜⬜⬜⬜\n";
    assert_eq!(answer.status, Status::Success);
    assert_eq!(answer.body, format!("{}No winner.\n", picture));
    assert!(board.full());
    assert!(!board.winner());
    assert_eq!(board.winning_team(), None);
    assert_eq!(board.show(), format!("{}No winner.\n", picture));

    let more = board.place("milk", "2");
    assert_eq!(more.status, Status::Success);
    assert_eq!(more.body, format!("{}No winner.\n", picture));
}
