//! The size of the board a game is started with.

use vstd::prelude::*;

verus! {

/// The dimensions chosen for a game.
#[derive(Debug, Clone, Copy, PartialEq, Eq, Structural)]
pub struct Args {
    /// Number of columns of the board.
    pub cols: usize,
    /// Number of rows of the board.
    pub rows: usize,
}

impl Default for Args {
    /// The classic board: seven columns and six rows.
    fn default() -> (args: Args)
        ensures
            args.cols == 7,
            args.rows == 6,
    {
        Args { cols: 7, rows: 6 }
    }
}

} // verus!
