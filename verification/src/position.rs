//! The mathematical model of a game: a 3×3 grid of cells and the mark that
//! moves next.

use vstd::prelude::*;
use crate::symbol::{Cell, Symbol};

verus! {

/// The cells of a board, row by row: `grid[r][c]` is the cell in row `r`,
/// column `c`.
pub type Grid = Seq<Seq<Cell>>;

/// Whether `r` and `c` name a square of the board.
pub open spec fn on_board(r: int, c: int) -> bool {
    0 <= r < 3 && 0 <= c < 3
}

/// Whether `grid` has three rows of three cells.
pub open spec fn is_board(grid: Grid) -> bool {
    &&& grid.len() == 3
    &&& forall|r: int| 0 <= r < 3 ==> (#[trigger] grid[r]).len() == 3
}

/// The board on which no mark has been placed.
pub open spec fn blank() -> Grid {
    Seq::new(3, |r: int| Seq::new(3, |c: int| None::<Symbol>))
}

/// `grid` with `mark` placed in row `r`, column `c`.
pub open spec fn place(grid: Grid, r: int, c: int, mark: Symbol) -> Grid {
    grid.update(r, grid[r].update(c, Some(mark)))
}

/// Whether every square of `grid` holds a mark.
pub open spec fn full(grid: Grid) -> bool {
    forall|r: int, c: int| on_board(r, c) ==> (#[trigger] grid[r][c]) is Some
}

/// What a game is at one moment: the board and the mark that moves next.
pub struct Position {
    pub grid: Grid,
    pub turn: Symbol,
}

impl Position {
    /// Whether the board has its 3×3 shape.
    pub open spec fn wf(self) -> bool {
        is_board(self.grid)
    }

    /// The position in which every game begins: a blank board, `X` to move.
    pub open spec fn start() -> Position {
        Position { grid: blank(), turn: Symbol::X }
    }

    /// The cell in row `r`, column `c`.
    pub open spec fn at(self, r: int, c: int) -> Cell {
        self.grid[r][c]
    }

    /// Whether a mark may be placed in row `r`, column `c`: the square is on
    /// the board and empty.
    pub open spec fn can_play(self, r: int, c: int) -> bool {
        on_board(r, c) && self.grid[r][c] is None
    }

    /// The position after the player to move has marked row `r`, column `c`:
    /// the square holds that player's mark and the turn passes to the other.
    pub open spec fn play(self, r: int, c: int) -> Position {
        Position { grid: place(self.grid, r, c, self.turn), turn: self.turn.opponent() }
    }
}

/// A mark, once placed, stays: a move changes the square it is made on and
/// no other, so every mark that was on the board is still there.
pub proof fn lemma_marks_stay(p: Position, r: int, c: int)
    requires
        p.wf(),
        p.can_play(r, c),
    ensures
        p.play(r, c).wf(),
        p.play(r, c).at(r, c) == Some(p.turn),
        forall|i: int, j: int|
            on_board(i, j) && (i != r || j != c) ==> #[trigger] p.play(r, c).at(i, j) == p.at(i, j),
        forall|i: int, j: int|
            on_board(i, j) && p.at(i, j) is Some ==> #[trigger] p.play(r, c).at(i, j) == p.at(i, j),
{
}

/// The players take turns: of two moves made one after the other, the first
/// places the mark of the player who was to move, the second the mark of the
/// opponent, and then the first player is to move again.
pub proof fn lemma_turns_alternate(p: Position, r1: int, c1: int, r2: int, c2: int)
    requires
        p.wf(),
        p.can_play(r1, c1),
        p.play(r1, c1).can_play(r2, c2),
    ensures
        p.play(r1, c1).turn == p.turn.opponent(),
        p.play(r1, c1).play(r2, c2).turn == p.turn,
        p.play(r1, c1).play(r2, c2).at(r1, c1) == Some(p.turn),
        p.play(r1, c1).play(r2, c2).at(r2, c2) == Some(p.turn.opponent()),
        p.play(r1, c1).play(r2, c2).at(r1, c1) != p.play(r1, c1).play(r2, c2).at(r2, c2),
{
}

} // verus!
