//! A four-by-four connect game between two teams, milk and cookie.
//!
//! Pieces are dropped into one of four columns and come to rest on the
//! lowest free tile. A team wins with four pieces in one column, one row or
//! one of the two diagonals.

use crate::status::{empty_answer, Answer, AnswerView, Status};
use crate::text::{decimal_u8, parse_u8, same_text};
use vstd::prelude::*;
use vstd::string::*;

verus! {

/// The two teams.
#[derive(Debug, Clone, Copy, PartialEq, Eq, Structural)]
pub enum Team {
    Milk,
    Cookie,
}

/// What a tile of the board holds.
#[derive(Copy, Clone, Debug, PartialEq, Eq, Structural)]
pub enum TileState {
    Empty,
    Cookie,
    Milk,
}

/// The team that `name` names, if it names one.
pub open spec fn team_named(name: Seq<char>) -> Option<Team> {
    if name == "cookie"@ {
        Some(Team::Cookie)
    } else if name == "milk"@ {
        Some(Team::Milk)
    } else {
        None
    }
}

impl Team {
    /// The team that `name` names: `"cookie"` or `"milk"`, nothing else.
    pub fn from_name(name: &str) -> (team: Option<Team>)
        ensures
            team == team_named(name@),
    {
        if same_text(name, "cookie") {
            Some(Team::Cookie)
        } else if same_text(name, "milk") {
            Some(Team::Milk)
        } else {
            None
        }
    }

    /// The tile that a piece of this team fills.
    pub open spec fn spec_tile(self) -> TileState {
        match self {
            Team::Cookie => TileState::Cookie,
            Team::Milk => TileState::Milk,
        }
    }

    /// The tile that a piece of this team fills.
    #[verifier::when_used_as_spec(spec_tile)]
    pub fn tile(self) -> (tile: TileState)
        ensures
            tile == self.spec_tile(),
    {
        match self {
            Team::Cookie => TileState::Cookie,
            Team::Milk => TileState::Milk,
        }
    }

    /// The picture of this team.
    pub open spec fn spec_symbol(self) -> Seq<char> {
        match self {
            Team::Cookie => "🍪"@,
            Team::Milk => "🥛"@,
        }
    }

    /// The picture of this team.
    pub fn symbol(self) -> (text: &'static str)
        ensures
            text@ == self.spec_symbol(),
    {
        match self {
            Team::Cookie => "🍪",
            Team::Milk => "🥛",
        }
    }
}

impl TryFrom<String> for Team {
    type Error = &'static str;

    /// The team that `value` names; `"Invalid value"` for any other text.
    fn try_from(value: String) -> (team: Result<Self, Self::Error>) {
        match Team::from_name(value.as_str()) {
            Some(t) => Ok(t),
            None => Err("Invalid value"),
        }
    }
}

impl vstd::std_specs::convert::TryFromSpecImpl<String> for Team {
    open spec fn obeys_try_from_spec() -> bool {
        true
    }

    open spec fn try_from_spec(value: String) -> Result<Self, Self::Error> {
        match team_named(value@) {
            Some(t) => Ok(t),
            None => Err("Invalid value"),
        }
    }
}

impl TileState {
    /// The picture of this tile.
    pub open spec fn spec_symbol(self) -> Seq<char> {
        match self {
            TileState::Empty => "⬛"@,
            TileState::Cookie => "🍪"@,
            TileState::Milk => "🥛"@,
        }
    }

    /// The picture of this tile.
    pub fn symbol(self) -> (text: &'static str)
        ensures
            text@ == self.spec_symbol(),
    {
        match self {
            TileState::Empty => "⬛",
            TileState::Cookie => "🍪",
            TileState::Milk => "🥛",
        }
    }
}

/// Why a piece could not be placed.
#[derive(Debug, Clone, Copy, PartialEq, Eq, Structural)]
pub enum BoardError {
    /// The column has no free tile left.
    FullColumn,
}

/// The tiles of a board: four columns of four tiles, each column from the
/// bottom up.
pub type Grid = [[TileState; 4]; 4];

/// The tiles of a board as a sequence of four columns of four tiles.
pub type Tiles = Seq<Seq<TileState>>;

/// The tiles that `grid` holds.
pub open spec fn tiles_of(grid: Grid) -> Tiles {
    Seq::new(4, |c: int| grid[c]@)
}

/// Whether `grid` has four columns of four tiles.
pub open spec fn is_grid(grid: Tiles) -> bool {
    &&& grid.len() == 4
    &&& forall|c: int| 0 <= c < 4 ==> (#[trigger] grid[c]).len() == 4
}

/// Whether four tiles all belong to one team.
pub open spec fn four_alike(a: TileState, b: TileState, c: TileState, d: TileState) -> bool {
    a != TileState::Empty && a == b && b == c && c == d
}

/// Whether one team holds all of column `c`.
pub open spec fn column_won(grid: Tiles, c: int) -> bool {
    four_alike(grid[c][0], grid[c][1], grid[c][2], grid[c][3])
}

/// Whether one team holds all of row `r`.
pub open spec fn row_won(grid: Tiles, r: int) -> bool {
    four_alike(grid[0][r], grid[1][r], grid[2][r], grid[3][r])
}

/// Whether one team holds a whole column.
pub open spec fn some_column_won(grid: Tiles) -> bool {
    exists|c: int| 0 <= c < 4 && column_won(grid, c)
}

/// Whether one team holds a whole row.
pub open spec fn some_row_won(grid: Tiles) -> bool {
    exists|r: int| 0 <= r < 4 && row_won(grid, r)
}

/// Whether one team holds one of the two diagonals.
pub open spec fn some_diagonal_won(grid: Tiles) -> bool {
    ||| four_alike(grid[0][3], grid[1][2], grid[2][1], grid[3][0])
    ||| four_alike(grid[0][0], grid[1][1], grid[2][2], grid[3][3])
}

/// Whether one team holds four in a line.
pub open spec fn some_line_won(grid: Tiles) -> bool {
    some_column_won(grid) || some_row_won(grid) || some_diagonal_won(grid)
}

/// Whether no tile is free.
pub open spec fn grid_full(grid: Tiles) -> bool {
    forall|c: int, r: int| 0 <= c < 4 && 0 <= r < 4 ==> grid[c][r] != TileState::Empty
}

/// The lowest free tile of column `c`, if it has one.
pub open spec fn free_row(grid: Tiles, c: int) -> Option<int> {
    if grid[c][0] == TileState::Empty {
        Some(0)
    } else if grid[c][1] == TileState::Empty {
        Some(1)
    } else if grid[c][2] == TileState::Empty {
        Some(2)
    } else if grid[c][3] == TileState::Empty {
        Some(3)
    } else {
        None
    }
}

/// The tiles after `tile` was put at row `r` of column `c`.
pub open spec fn with_tile(grid: Tiles, c: int, r: int, tile: TileState) -> Tiles {
    grid.update(c, grid[c].update(r, tile))
}

/// The picture of row `r`: a wall, the four tiles from the first column to
/// the last, a wall, and a line end.
pub open spec fn row_text(grid: Tiles, r: int) -> Seq<char> {
    "⬜"@ + grid[0][r].spec_symbol() + grid[1][r].spec_symbol() + grid[2][r].spec_symbol()
        + grid[3][r].spec_symbol() + "⬜\n"@
}

/// The picture of a board: the rows from the top down between walls, on a
/// floor.
pub open spec fn render(grid: Tiles) -> Seq<char> {
    row_text(grid, 3) + row_text(grid, 2) + row_text(grid, 1) + row_text(grid, 0)
        + "⬜⬜⬜⬜⬜⬜\n"@
}

/// The text shown with a board: under a full board that there is no winner,
/// else who has won, if anyone.
pub open spec fn shown(board: BoardView) -> Seq<char> {
    if grid_full(board.grid) {
        board.text + "No winner.\n"@
    } else {
        match board.winner {
            Some(w) => board.text + w.spec_symbol() + " wins!\n"@,
            None => board.text,
        }
    }
}

/// The board after `team` asked for a piece in `column`, counted from 1.
///
/// Nothing changes when the column is none of the four, when the game is
/// won, when the board is full, or when the column is. Else the piece
/// fills the lowest free tile of the column, the tiles are drawn afresh,
/// and `team` is the winner if it now holds four in a line.
pub open spec fn placed_board(board: BoardView, team: Team, column: int) -> BoardView {
    if !(1 <= column <= 4) || board.winner is Some || grid_full(board.grid) {
        board
    } else {
        match free_row(board.grid, column - 1) {
            None => board,
            Some(r) => {
                let grid = with_tile(board.grid, column - 1, r, team.spec_tile());
                BoardView {
                    grid,
                    text: render(grid),
                    winner: if some_line_won(grid) {
                        Some(team)
                    } else {
                        None
                    },
                }
            },
        }
    }
}

/// The answer to `team` asking for a piece in `column`, counted from 1.
///
/// 400 for a column that is none of the four; 503 with the board and the
/// winner when the game is won already; 200 with the board and "No winner."
/// when the board is full already; 503 when the column is full; else 200
/// with the board after the move and, under it, who has won by it, or that
/// nobody has if the move filled the board.
pub open spec fn placed_answer(board: BoardView, team: Team, column: int) -> AnswerView {
    if !(1 <= column <= 4) {
        empty_answer(Status::BadRequest)
    } else if board.winner is Some {
        AnswerView {
            status: Status::ServiceUnavailable,
            body: board.text + board.winner->0.spec_symbol() + " wins!\n"@,
        }
    } else if grid_full(board.grid) {
        AnswerView { status: Status::Success, body: board.text + "No winner.\n"@ }
    } else {
        match free_row(board.grid, column - 1) {
            None => empty_answer(Status::ServiceUnavailable),
            Some(r) => {
                let grid = with_tile(board.grid, column - 1, r, team.spec_tile());
                AnswerView {
                    status: Status::Success,
                    body: if some_line_won(grid) {
                        render(grid) + team.spec_symbol() + " wins!\n"@
                    } else if grid_full(grid) {
                        render(grid) + "No winner.\n"@
                    } else {
                        render(grid)
                    },
                }
            },
        }
    }
}

/// A move leaves the picture current: where the picture showed the tiles
/// before the move, it shows them after it. A game that is won, and a board
/// that is full, stay as they are, and no move in a game that is won is
/// answered with 200.
pub proof fn lemma_move_keeps_picture(board: BoardView, team: Team, column: int)
    ensures
        board.text == render(board.grid) ==> placed_board(board, team, column).text == render(
            placed_board(board, team, column).grid,
        ),
        board.winner is Some || grid_full(board.grid) ==> placed_board(board, team, column)
            == board,
        board.winner is Some ==> placed_answer(board, team, column).status != Status::Success,
{
}

/// The game: its tiles, their picture as last drawn, and the winner.
#[derive(Debug)]
pub struct Board {
    grid: Grid,
    raw_representation: String,
    winner: Option<Team>,
}

/// The mathematical value of a [`Board`].
pub struct BoardView {
    pub grid: Tiles,
    pub text: Seq<char>,
    pub winner: Option<Team>,
}

impl View for Board {
    type V = BoardView;

    closed spec fn view(&self) -> BoardView {
        BoardView { grid: tiles_of(self.grid), text: self.raw_representation@, winner: self.winner }
    }
}

/// Draws row `r` of `grid` at the end of `text`.
fn draw_row(text: &mut String, grid: &Grid, r: usize)
    requires
        r < 4,
    ensures
        final(text)@ == old(text)@ + row_text(tiles_of(*grid), r as int),
{
    text.append("⬜");
    text.append(grid[0][r].symbol());
    text.append(grid[1][r].symbol());
    text.append(grid[2][r].symbol());
    text.append(grid[3][r].symbol());
    text.append("⬜\n");
}

/// The picture of `grid`.
fn draw(grid: &Grid) -> (text: String)
    ensures
        text@ == render(tiles_of(*grid)),
{
    let mut text = String::new();
    draw_row(&mut text, grid, 3);
    draw_row(&mut text, grid, 2);
    draw_row(&mut text, grid, 1);
    draw_row(&mut text, grid, 0);
    text.append("⬜⬜⬜⬜⬜⬜\n");
    text
}

impl Board {
    /// The tiles of every board stand in four columns of four.
    pub proof fn lemma_grid_shape(&self)
        ensures
            is_grid(self@.grid),
    {
    }

    /// A board with every tile free, drawn, and no winner.
    pub fn new() -> (board: Self)
        ensures
            is_grid(board@.grid),
            forall|c: int, r: int| 0 <= c < 4 && 0 <= r < 4 ==> board@.grid[c][r] == TileState::Empty,
            board@.text == render(board@.grid),
            board@.winner is None,
    {
        let grid: Grid = [[TileState::Empty; 4]; 4];
        let raw_representation = draw(&grid);
        Board { grid, raw_representation, winner: None }
    }

    /// Drops a piece of `team` into `column`, counted from 1: it fills the
    /// lowest free tile of that column. A full column is left as it is and
    /// reported. Neither the picture nor the winner changes.
    pub fn set_position(&mut self, team: &Team, column: usize) -> (placed: Result<(), BoardError>)
        requires
            1 <= column <= 4,
        ensures
            final(self)@.text == old(self)@.text,
            final(self)@.winner == old(self)@.winner,
            match free_row(old(self)@.grid, column - 1) {
                Some(r) => placed is Ok && final(self)@.grid == with_tile(
                    old(self)@.grid,
                    column - 1,
                    r,
                    team.spec_tile(),
                ),
                None => placed == Err::<(), BoardError>(BoardError::FullColumn) && final(self)@.grid
                    == old(self)@.grid,
            },
    {
        let c: usize = column - 1;
        let ghost tiles = self@.grid;
        let mut r: usize = 0;
        while r < 4
            invariant
                c == column - 1,
                c < 4,
                r <= 4,
                *self == *old(self),
                tiles == tiles_of(self.grid),
                forall|j: int| 0 <= j < r ==> tiles[c as int][j] != TileState::Empty,
            decreases 4 - r,
        {
            if self.grid[c][r] == TileState::Empty {
                self.grid[c][r] = team.tile();
                proof {
                    let after = self@.grid;
                    let expected = with_tile(tiles, c as int, r as int, team.spec_tile());
                    assert forall|i: int| 0 <= i < 4 implies after[i] == expected[i] by {}
                }
                return Ok(());
            }
            r += 1;
        }
        Err(BoardError::FullColumn)
    }

    /// Draws the tiles afresh.
    pub fn grid_update(&mut self)
        ensures
            final(self)@.grid == old(self)@.grid,
            final(self)@.winner == old(self)@.winner,
            final(self)@.text == render(old(self)@.grid),
    {
        self.raw_representation = draw(&self.grid);
    }

    /// Whether one team holds a whole column.
    pub fn column_winner(&self) -> (won: bool)
        ensures
            won == some_column_won(self@.grid),
    {
        let ghost tiles = self@.grid;
        let mut c: usize = 0;
        while c < 4
            invariant
                c <= 4,
                tiles == tiles_of(self.grid),
                forall|i: int| 0 <= i < c ==> !column_won(tiles, i),
            decreases 4 - c,
        {
            let column = &self.grid[c];
            if column[0] != TileState::Empty && column[0] == column[1] && column[1] == column[2]
                && column[2] == column[3] {
                assert(column_won(tiles, c as int));
                return true;
            }
            c += 1;
        }
        false
    }

    /// Whether one team holds a whole row.
    pub fn row_winner(&self) -> (won: bool)
        ensures
            won == some_row_won(self@.grid),
    {
        let ghost tiles = self@.grid;
        let mut r: usize = 0;
        while r < 4
            invariant
                r <= 4,
                tiles == tiles_of(self.grid),
                forall|i: int| 0 <= i < r ==> !row_won(tiles, i),
            decreases 4 - r,
        {
            let first = self.grid[0][r];
            if first != TileState::Empty && first == self.grid[1][r] && first == self.grid[2][r]
                && first == self.grid[3][r] {
                assert(row_won(tiles, r as int));
                return true;
            }
            r += 1;
        }
        false
    }

    /// Whether one team holds one of the two diagonals.
    pub fn diagonal_winner(&self) -> (won: bool)
        ensures
            won == some_diagonal_won(self@.grid),
    {
        let falling = self.grid[0][3];
        if falling != TileState::Empty && falling == self.grid[1][2] && falling == self.grid[2][1]
            && falling == self.grid[3][0] {
            return true;
        }
        let rising = self.grid[0][0];
        rising != TileState::Empty && rising == self.grid[1][1] && rising == self.grid[2][2]
            && rising == self.grid[3][3]
    }

    /// Whether one team holds four in a line: a column, a row or a diagonal.
    pub fn winner(&self) -> (won: bool)
        ensures
            won == some_line_won(self@.grid),
    {
        if self.column_winner() {
            return true;
        }
        if self.row_winner() {
            return true;
        }
        if self.diagonal_winner() {
            return true;
        }
        false
    }

    /// The picture of the tiles as last drawn.
    pub fn raw_representation(&self) -> (text: &String)
        ensures
            text@ == self@.text,
    {
        &self.raw_representation
    }

    /// The team that has won, if any.
    pub fn winning_team(&self) -> (team: Option<Team>)
        ensures
            team == self@.winner,
    {
        self.winner
    }

    /// The text shown with the board.
    pub fn show(&self) -> (text: String)
        ensures
            text@ == shown(self@),
    {
        let mut text = self.raw_representation.clone();
        if self.full() {
            text.append("No winner.\n");
        } else {
            match self.winner {
                Some(w) => {
                    text.append(w.symbol());
                    text.append(" wins!\n");
                },
                None => {},
            }
        }
        text
    }

    /// Plays one move: `team` asks for a piece in `column`, counted from 1.
    pub fn place_at(&mut self, team: Team, column: u8) -> (answer: Answer)
        ensures
            final(self)@ == placed_board(old(self)@, team, column as int),
            answer@ == placed_answer(old(self)@, team, column as int),
    {
        if column < 1 || column > 4 {
            return Answer::empty(Status::BadRequest);
        }
        match self.winner {
            Some(w) => {
                let mut body = self.raw_representation.clone();
                body.append(w.symbol());
                body.append(" wins!\n");
                return Answer { status: Status::ServiceUnavailable, body };
            },
            None => {},
        }
        if self.full() {
            let mut body = self.raw_representation.clone();
            body.append("No winner.\n");
            return Answer { status: Status::Success, body };
        }
        match self.set_position(&team, column as usize) {
            Err(_) => {
                return Answer::empty(Status::ServiceUnavailable);
            },
            Ok(_) => {},
        }
        self.grid_update();
        let mut body = self.raw_representation.clone();
        if self.winner() {
            body.append(team.symbol());
            body.append(" wins!\n");
            self.winner = Some(team);
        } else if self.full() {
            body.append("No winner.\n");
        }
        Answer { status: Status::Success, body }
    }

    /// Plays one move as it was asked for in text: `team` must name a team
    /// and `column` must spell a number below 256 in decimal, else the
    /// answer is 400 and nothing changes.
    pub fn place(&mut self, team: &str, column: &str) -> (answer: Answer)
        ensures
            match (team_named(team@), decimal_u8(column@)) {
                (Some(t), Some(c)) => {
                    &&& final(self)@ == placed_board(old(self)@, t, c as int)
                    &&& answer@ == placed_answer(old(self)@, t, c as int)
                },
                _ => {
                    &&& final(self)@ == old(self)@
                    &&& answer@ == empty_answer(Status::BadRequest)
                },
            },
    {
        let team = match Team::from_name(team) {
            Some(t) => t,
            None => {
                return Answer::empty(Status::BadRequest);
            },
        };
        let column = match parse_u8(column) {
            Some(c) => c,
            None => {
                return Answer::empty(Status::BadRequest);
            },
        };
        self.place_at(team, column)
    }

    /// Whether no tile is free.
    pub fn full(&self) -> (full: bool)
        ensures
            full == grid_full(self@.grid),
    {
        let ghost tiles = self@.grid;
        let mut c: usize = 0;
        while c < 4
            invariant
                c <= 4,
                tiles == tiles_of(self.grid),
                forall|i: int, r: int| 0 <= i < c && 0 <= r < 4 ==> tiles[i][r] != TileState::Empty,
            decreases 4 - c,
        {
            let mut r: usize = 0;
            while r < 4
                invariant
                    c < 4,
                    r <= 4,
                    tiles == tiles_of(self.grid),
                    forall|j: int| 0 <= j < r ==> tiles[c as int][j] != TileState::Empty,
                decreases 4 - r,
            {
                if self.grid[c][r] == TileState::Empty {
                    return false;
                }
                r += 1;
            }
            c += 1;
        }
        true
    }
}

} // verus!
