//! The two marks.

use vstd::prelude::*;

verus! {

/// A player's mark.
#[derive(Clone, Copy, Debug, PartialEq, Eq, Structural)]
pub enum Symbol {
    X,
    O,
}

/// What a square of the board holds: a mark, or nothing yet.
pub type Cell = Option<Symbol>;

impl Symbol {
    /// The mark of the opponent.
    pub open spec fn opponent(self) -> Symbol {
        match self {
            Symbol::X => Symbol::O,
            Symbol::O => Symbol::X,
        }
    }

    /// The character that stands for this mark in the text of a board.
    pub open spec fn glyph(self) -> char {
        match self {
            Symbol::X => 'X',
            Symbol::O => 'O',
        }
    }

    /// Gives the mark of the other player.
    pub fn other(self) -> (o: Symbol)
        ensures
            o == self.opponent(),
    {
        match self {
            Symbol::X => Symbol::O,
            Symbol::O => Symbol::X,
        }
    }

    /// Gives the character that stands for this mark: `'X'` or `'O'`.
    pub fn to_char(self) -> (c: char)
        ensures
            c == self.glyph(),
    {
        match self {
            Symbol::X => 'X',
            Symbol::O => 'O',
        }
    }
}

} // verus!
