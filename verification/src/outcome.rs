//! Who has won, if anyone: the rule that reads a board.

use vstd::prelude::*;
use crate::symbol::{Cell, Symbol};
use crate::position::{blank, full, on_board, Grid, Position};

verus! {

/// The result of reading a board.
#[derive(Clone, Copy, Debug, PartialEq, Eq, Structural)]
pub enum GameState {
    /// A line of three squares holds this mark.
    Win(Symbol),
    /// No line is complete and a square is still empty.
    InProgress,
    /// No line is complete and no square is empty.
    Draw,
}

/// The mark that three cells share, if all three hold the same mark.
pub open spec fn alike(a: Cell, b: Cell, c: Cell) -> Option<Symbol> {
    if a == b && a == c {
        a
    } else {
        None
    }
}

/// The mark that fills row `r`, if one does.
pub open spec fn row_mark(grid: Grid, r: int) -> Option<Symbol> {
    alike(grid[r][0], grid[r][1], grid[r][2])
}

/// The mark that fills column `c`, if one does.
pub open spec fn column_mark(grid: Grid, c: int) -> Option<Symbol> {
    alike(grid[0][c], grid[1][c], grid[2][c])
}

/// The mark that fills the diagonal from the top left to the bottom right,
/// if one does.
pub open spec fn falling_mark(grid: Grid) -> Option<Symbol> {
    alike(grid[0][0], grid[1][1], grid[2][2])
}

/// The mark that fills the diagonal from the bottom left to the top right,
/// if one does.
pub open spec fn rising_mark(grid: Grid) -> Option<Symbol> {
    alike(grid[2][0], grid[1][1], grid[0][2])
}

/// `first` if it names a mark, else `second`.
pub open spec fn or_else(first: Option<Symbol>, second: Option<Symbol>) -> Option<Symbol> {
    if first is Some {
        first
    } else {
        second
    }
}

/// The mark of the first complete row, from the top.
pub open spec fn rows_mark(grid: Grid) -> Option<Symbol> {
    or_else(row_mark(grid, 0), or_else(row_mark(grid, 1), row_mark(grid, 2)))
}

/// The mark of the first complete column, from the left.
pub open spec fn columns_mark(grid: Grid) -> Option<Symbol> {
    or_else(column_mark(grid, 0), or_else(column_mark(grid, 1), column_mark(grid, 2)))
}

/// The mark of the first complete line, where the lines are taken in the
/// order rows, columns, falling diagonal, rising diagonal.
pub open spec fn winner(grid: Grid) -> Option<Symbol> {
    or_else(
        rows_mark(grid),
        or_else(columns_mark(grid), or_else(falling_mark(grid), rising_mark(grid))),
    )
}

/// Whether some row, column or diagonal of `grid` holds `mark` in all three
/// of its squares.
pub open spec fn has_line(grid: Grid, mark: Symbol) -> bool {
    ||| exists|r: int| 0 <= r < 3 && #[trigger] row_mark(grid, r) == Some(mark)
    ||| exists|c: int| 0 <= c < 3 && #[trigger] column_mark(grid, c) == Some(mark)
    ||| falling_mark(grid) == Some(mark)
    ||| rising_mark(grid) == Some(mark)
}

/// What a board says of the game: won by the mark of its first complete
/// line; else drawn if it is full; else still in progress.
pub open spec fn outcome(grid: Grid) -> GameState {
    match winner(grid) {
        Some(mark) => GameState::Win(mark),
        None => if full(grid) {
            GameState::Draw
        } else {
            GameState::InProgress
        },
    }
}

/// Gives the mark that three cells share, if all three hold the same mark.
pub fn these_win(a: Cell, b: Cell, c: Cell) -> (mark: Option<Symbol>)
    ensures
        mark == alike(a, b, c),
{
    if a == b && a == c {
        a
    } else {
        None
    }
}

/// The three results part the boards between them. A board is won exactly
/// if some line is complete, and then by a mark that holds a complete line;
/// it is drawn exactly if no line is complete and no square is empty; it is
/// in progress exactly if no line is complete and some square is empty.
pub proof fn lemma_outcome_cases(grid: Grid)
    ensures
        forall|mark: Symbol| outcome(grid) == GameState::Win(mark) ==> has_line(grid, mark),
        winner(grid) is None <==> forall|mark: Symbol| !has_line(grid, mark),
        outcome(grid) is Win <==> exists|mark: Symbol| has_line(grid, mark),
        outcome(grid) == GameState::Draw <==> full(grid) && forall|mark: Symbol|
            !has_line(grid, mark),
        outcome(grid) == GameState::InProgress <==> !full(grid) && forall|mark: Symbol|
            !has_line(grid, mark),
{
    if winner(grid) is Some {
        assert(has_line(grid, winner(grid).unwrap()));
    }
}

/// If only one mark holds a complete line, the board is won by that mark,
/// whatever the order in which the lines are read.
pub proof fn lemma_sole_line_wins(grid: Grid, mark: Symbol)
    requires
        has_line(grid, mark),
        !has_line(grid, mark.opponent()),
    ensures
        outcome(grid) == GameState::Win(mark),
{
    lemma_outcome_cases(grid);
}

/// A game begins in progress: the blank board has no mark on it, and its
/// outcome is `InProgress`.
pub proof fn lemma_start_in_progress()
    ensures
        forall|r: int, c: int| on_board(r, c) ==> #[trigger] Position::start().at(r, c) is None,
        outcome(Position::start().grid) == GameState::InProgress,
{
}

/// Only the player who moves can complete a line. On a board that nobody has
/// won, a move gives the opponent no line; so if the move wins the game, it
/// wins it for the mover.
pub proof fn lemma_only_mover_wins(p: Position, r: int, c: int)
    requires
        p.wf(),
        p.can_play(r, c),
        winner(p.grid) is None,
    ensures
        !has_line(p.play(r, c).grid, p.turn.opponent()),
        outcome(p.play(r, c).grid) is Win ==> outcome(p.play(r, c).grid) == GameState::Win(p.turn),
{
    lemma_outcome_cases(p.play(r, c).grid);
}

/// A won game stays won. If the board is won and a further mark is placed
/// on it, the complete line is still there: the outcome is again a win,
/// never a draw and never in progress. (Whose win it is may change, if the
/// new mark completes a line that is read earlier.)
pub proof fn lemma_win_stays(p: Position, r: int, c: int)
    requires
        p.wf(),
        p.can_play(r, c),
        outcome(p.grid) is Win,
    ensures
        outcome(p.play(r, c).grid) is Win,
{
}

/// A drawn game is over: on a drawn board no square is left to play on.
pub proof fn lemma_draw_is_final(p: Position, r: int, c: int)
    requires
        outcome(p.grid) == GameState::Draw,
    ensures
        !p.can_play(r, c),
{
}

} // verus!
