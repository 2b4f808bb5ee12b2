//! A verified tic-tac-toe engine.
//!
//! The engine keeps a 3×3 board and the mark that moves next, places marks
//! on request, reports whether the game is won, drawn or still open, and
//! draws the board as text. Every function carries a contract over the
//! mathematical [`Position`] that a game stands for.

pub mod game;
pub mod outcome;
pub mod position;
pub mod render;
pub mod symbol;

pub use game::{MoveError, TicTacToe};
pub use outcome::GameState;
pub use position::Position;
pub use symbol::{Cell, Symbol};
