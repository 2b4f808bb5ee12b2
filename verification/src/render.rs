//! The board as text.

use vstd::prelude::*;
use vstd::string::StringExecFns;
use crate::game::TicTacToe;
use crate::outcome::{outcome, GameState};
use crate::position::{blank, is_board, on_board, Grid, Position};
use crate::symbol::{Cell, Symbol};

verus! {

/// The character that shows a cell: a space for an empty one, else the
/// glyph of its mark.
pub open spec fn cell_glyph(cell: Cell) -> char {
    match cell {
        None => ' ',
        Some(mark) => mark.glyph(),
    }
}

/// The line that frames the board above and below.
pub open spec fn border() -> Seq<char> {
    seq!['+', '-', '-', '-', '+', '\n']
}

/// The line that shows one row: its three cells between two bars.
pub open spec fn row_text(row: Seq<Cell>) -> Seq<char> {
    seq!['|', cell_glyph(row[0]), cell_glyph(row[1]), cell_glyph(row[2]), '|', '\n']
}

/// The text of a board: the border, the three rows from the top, and the
/// border again, each line ended by a newline.
pub open spec fn board_text(grid: Grid) -> Seq<char> {
    border() + row_text(grid[0]) + row_text(grid[1]) + row_text(grid[2]) + border()
}

/// Gives the text that shows one cell: `" "`, `"X"` or `"O"`.
pub fn cell_str(cell: Cell) -> (text: &'static str)
    ensures
        text@ == seq![cell_glyph(cell)],
{
    proof {
        reveal_strlit(" ");
        reveal_strlit("X");
        reveal_strlit("O");
    }
    match cell {
        None => " ",
        Some(Symbol::X) => "X",
        Some(Symbol::O) => "O",
    }
}

impl TicTacToe {
    /// Draws the board: five lines, each ended by a newline. The first and
    /// the last are `+---+`; between them each row stands between two bars,
    /// with a space for an empty cell and `X` or `O` for a mark.
    pub fn render(&self) -> (text: String)
        ensures
            text@ == board_text(self@.grid),
    {
        proof {
            reveal_strlit("+---+\n");
        }
        let mut text = String::new();
        text.append("+---+\n");
        let mut r: usize = 0;
        while r < 3
            invariant
                r <= 3,
                r == 0 ==> text@ == border(),
                r == 1 ==> text@ == border() + row_text(self@.grid[0]),
                r == 2 ==> text@ == border() + row_text(self@.grid[0]) + row_text(self@.grid[1]),
                r == 3 ==> text@ == border() + row_text(self@.grid[0]) + row_text(self@.grid[1])
                    + row_text(self@.grid[2]),
            decreases 3 - r,
        {
            proof {
                reveal_strlit("|");
                reveal_strlit("|\n");
            }
            let ghost before = text@;
            text.append("|");
            text.append(cell_str(self.board[r][0]));
            text.append(cell_str(self.board[r][1]));
            text.append(cell_str(self.board[r][2]));
            text.append("|\n");
            assert(text@ =~= before + row_text(self@.grid[r as int]));
            r += 1;
        }
        text.append("+---+\n");
        text
    }
}

/// Where the character of row `r`, column `c` stands in the text of a board.
pub open spec fn text_index(r: int, c: int) -> int {
    7 + 6 * r + c
}

/// The text reflects the board square by square: it is 30 characters long,
/// and the character at the place of each square is the glyph of that cell.
pub proof fn lemma_text_shows_cells(grid: Grid)
    ensures
        board_text(grid).len() == 30,
        forall|r: int, c: int|
            on_board(r, c) ==> board_text(grid)[#[trigger] text_index(r, c)] == cell_glyph(
                grid[r][c],
            ),
{
}

/// The blank board is drawn with a space in every square.
pub proof fn lemma_blank_text()
    ensures
        board_text(blank()) == "+---+\n|   |\n|   |\n|   |\n+---+\n"@,
{
    reveal_strlit("+---+\n|   |\n|   |\n|   |\n+---+\n");
    assert(board_text(blank()) =~= "+---+\n|   |\n|   |\n|   |\n+---+\n"@);
}

/// After a move the square played on shows the mark of the player who
/// moved, and every other square shows what it showed before.
pub proof fn lemma_move_shows_mover(p: Position, r: int, c: int)
    requires
        p.wf(),
        p.can_play(r, c),
    ensures
        board_text(p.play(r, c).grid)[text_index(r, c)] == p.turn.glyph(),
        forall|i: int, j: int|
            on_board(i, j) && (i != r || j != c) ==> board_text(
                p.play(r, c).grid,
            )[#[trigger] text_index(i, j)] == board_text(p.grid)[text_index(i, j)],
{
    lemma_text_shows_cells(p.grid);
    lemma_text_shows_cells(p.play(r, c).grid);
}

/// Cells that are drawn alike are alike.
pub proof fn lemma_glyph_tells_cell(x: Cell, y: Cell)
    requires
        cell_glyph(x) == cell_glyph(y),
    ensures
        x == y,
{
}

/// The text tells the board: two boards that are drawn alike are the same
/// board. So a game whose text has not changed has not changed its board.
pub proof fn lemma_text_tells_board(a: Grid, b: Grid)
    requires
        is_board(a),
        is_board(b),
        board_text(a) == board_text(b),
    ensures
        a == b,
{
    lemma_text_shows_cells(a);
    lemma_text_shows_cells(b);
    assert forall|r: int, c: int| on_board(r, c) implies a[r][c] == b[r][c] by {
        assert(board_text(a)[text_index(r, c)] == cell_glyph(a[r][c]));
        assert(board_text(b)[text_index(r, c)] == cell_glyph(b[r][c]));
        lemma_glyph_tells_cell(a[r][c], b[r][c]);
    }
    assert forall|r: int| 0 <= r < 3 implies a[r] == b[r] by {
        assert(on_board(r, 0) && on_board(r, 1) && on_board(r, 2));
        assert(a[r] =~= b[r]);
    }
    assert(a =~= b);
}

/// Asking again gives the same answer: whatever two readings of one game
/// return, under the contracts of `current_state` and `render`, is equal.
pub proof fn lemma_queries_repeat(
    game: TicTacToe,
    state1: GameState,
    state2: GameState,
    text1: Seq<char>,
    text2: Seq<char>,
)
    requires
        state1 == outcome(game@.grid),
        state2 == outcome(game@.grid),
        text1 == board_text(game@.grid),
        text2 == board_text(game@.grid),
    ensures
        state1 == state2,
        text1 == text2,
{
}

} // verus!
