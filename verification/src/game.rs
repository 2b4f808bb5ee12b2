//! The game itself: a board, the mark to move, and the moves.

use vstd::prelude::*;
use crate::outcome::{column_mark, outcome, row_mark, these_win, GameState};
use crate::position::{full, on_board, Position};
use crate::symbol::{Cell, Symbol};

verus! {

/// Why a move was refused. A refused move leaves the game as it was.
#[derive(Clone, Copy, Debug, PartialEq, Eq, Structural)]
pub enum MoveError {
    /// The square named is not on the board.
    OutOfRange,
    /// The square named already holds a mark.
    OccupiedCell,
}

/// A game of tic-tac-toe.
#[derive(Debug, PartialEq, Eq)]
pub struct TicTacToe {
    /// The cells, indexed by row, then column.
    pub board: [[Cell; 3]; 3],
    /// The mark that the next move places.
    pub whose_turn: Symbol,
}

impl View for TicTacToe {
    type V = Position;

    open spec fn view(&self) -> Position {
        Position { grid: Seq::new(3, |r: int| self.board@[r]@), turn: self.whose_turn }
    }
}

/// What a request to mark row `r`, column `c` comes to in position `p`:
/// refused as out of range if the square is not on the board, refused as
/// occupied if it holds a mark, and else the outcome of the board with the
/// new mark on it.
pub open spec fn move_result(p: Position, r: int, c: int) -> Result<GameState, MoveError> {
    if !on_board(r, c) {
        Err(MoveError::OutOfRange)
    } else if p.grid[r][c] is Some {
        Err(MoveError::OccupiedCell)
    } else {
        Ok(outcome(p.play(r, c).grid))
    }
}

/// What a request to mark the square numbered `pos` comes to in position
/// `p`, the squares being numbered from 0 to 8 row by row.
pub open spec fn index_result(p: Position, pos: int) -> Result<GameState, MoveError> {
    if 0 <= pos < 9 {
        move_result(p, pos / 3, pos % 3)
    } else {
        Err(MoveError::OutOfRange)
    }
}

impl TicTacToe {
    /// Begins a game: a blank board, with `X` to move.
    pub fn new() -> (game: TicTacToe)
        ensures
            game@ == Position::start(),
    {
        let game = TicTacToe { board: [[None; 3]; 3], whose_turn: Symbol::X };
        assert(game@.grid =~~= Position::start().grid);
        game
    }

    /// Places the mark of the player to move in row `x`, column `y`, and
    /// reports what the board then says.
    ///
    /// The move is refused with `OutOfRange` if `x` or `y` is above 2, and
    /// with `OccupiedCell` if the square holds a mark already; a refused move
    /// changes nothing. Otherwise the square takes the mark, the turn passes
    /// to the other player, and the result is the outcome of the new board.
    ///
    /// The game does not stop by itself when it is won or drawn: a caller
    /// ends the round at the first result other than `InProgress`. On a drawn
    /// board every further move is refused as occupied. On a won board a move
    /// to an empty square is still made, and the result is again a win, read
    /// from the board as always; should the other player complete a line of
    /// their own by it, the win reported may then be theirs.
    pub fn go_indices(&mut self, x: usize, y: usize) -> (result: Result<GameState, MoveError>)
        ensures
            result == move_result(old(self)@, x as int, y as int),
            result is Ok <==> old(self)@.can_play(x as int, y as int),
            result is Ok ==> final(self)@ == old(self)@.play(x as int, y as int),
            result is Err ==> *final(self) == *old(self),
    {
        if x > 2 || y > 2 {
            return Err(MoveError::OutOfRange);
        }
        match self.board[x][y] {
            None => {
                self.board[x][y] = Some(self.whose_turn);
            },
            Some(_) => {
                return Err(MoveError::OccupiedCell);
            },
        }
        self.whose_turn = self.whose_turn.other();
        assert(self@.grid =~~= old(self)@.play(x as int, y as int).grid);
        Ok(self.current_state())
    }

    /// Places the mark of the player to move in the square numbered `pos`,
    /// where the squares are numbered from 0 to 8, row by row: the square is
    /// in row `pos / 3`, column `pos % 3`.
    ///
    /// The move is refused with `OutOfRange` if `pos` is above 8; in all else
    /// it is the move of `go_indices` on that row and column.
    pub fn go_index(&mut self, pos: usize) -> (result: Result<GameState, MoveError>)
        ensures
            result == index_result(old(self)@, pos as int),
            result is Ok <==> pos < 9 && old(self)@.can_play(pos as int / 3, pos as int % 3),
            result is Ok ==> final(self)@ == old(self)@.play(pos as int / 3, pos as int % 3),
            result is Err ==> *final(self) == *old(self),
    {
        if pos >= 9 {
            Err(MoveError::OutOfRange)
        } else {
            self.go_indices(pos / 3, pos % 3)
        }
    }

    /// Reads the board: `Win` with the mark of the first complete line, taking
    /// the rows from the top, then the columns from the left, then the two
    /// diagonals; else `Draw` if no square is empty; else `InProgress`.
    pub fn current_state(&self) -> (state: GameState)
        ensures
            state == outcome(self@.grid),
    {
        let mut r: usize = 0;
        while r < 3
            invariant
                r <= 3,
                forall|k: int| 0 <= k < r ==> row_mark(self@.grid, k) is None,
            decreases 3 - r,
        {
            if let Some(mark) = these_win(self.board[r][0], self.board[r][1], self.board[r][2]) {
                return GameState::Win(mark);
            }
            r += 1;
        }
        let mut c: usize = 0;
        while c < 3
            invariant
                c <= 3,
                forall|k: int| 0 <= k < 3 ==> row_mark(self@.grid, k) is None,
                forall|k: int| 0 <= k < c ==> column_mark(self@.grid, k) is None,
            decreases 3 - c,
        {
            if let Some(mark) = these_win(self.board[0][c], self.board[1][c], self.board[2][c]) {
                return GameState::Win(mark);
            }
            c += 1;
        }
        if let Some(mark) = these_win(self.board[0][0], self.board[1][1], self.board[2][2]) {
            return GameState::Win(mark);
        }
        if let Some(mark) = these_win(self.board[2][0], self.board[1][1], self.board[0][2]) {
            return GameState::Win(mark);
        }
        if self.is_full() {
            GameState::Draw
        } else {
            GameState::InProgress
        }
    }

    /// Whether every square holds a mark.
    pub fn is_full(&self) -> (all: bool)
        ensures
            all == full(self@.grid),
    {
        let mut r: usize = 0;
        while r < 3
            invariant
                r <= 3,
                forall|i: int, j: int| 0 <= i < r && 0 <= j < 3 ==> self@.grid[i][j] is Some,
            decreases 3 - r,
        {
            let mut c: usize = 0;
            while c < 3
                invariant
                    r < 3,
                    c <= 3,
                    forall|i: int, j: int| 0 <= i < r && 0 <= j < 3 ==> self@.grid[i][j] is Some,
                    forall|j: int| 0 <= j < c ==> self@.grid[r as int][j] is Some,
                decreases 3 - c,
            {
                if self.board[r][c].is_none() {
                    return false;
                }
                c += 1;
            }
            r += 1;
        }
        true
    }
}

/// A square's number and its row and column name the same move: the square
/// in row `r`, column `c` has the number `3 * r + c`, and every number from
/// 0 to 8 is that of a square on the board.
pub proof fn lemma_index_names_square(p: Position, r: int, c: int, pos: int)
    ensures
        on_board(r, c) ==> 0 <= 3 * r + c < 9 && index_result(p, 3 * r + c) == move_result(
            p,
            r,
            c,
        ),
        0 <= pos < 9 ==> on_board(pos / 3, pos % 3) && 3 * (pos / 3) + pos % 3 == pos,
{
}

/// Every game stands for a position of the right shape.
pub proof fn lemma_view_is_board(game: TicTacToe)
    ensures
        game@.wf(),
        forall|r: int, c: int| on_board(r, c) ==> #[trigger] game@.at(r, c) == game.board[r][c],
{
}

} // verus!
