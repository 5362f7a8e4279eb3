//! The executable board: a grid of cells, the player to move, and the rules
//! by which a token is dropped and a win is found.

use vstd::prelude::*;
use crate::piece::{Cell, Outcome, PlacementError, Player};
use crate::position::{slot_in_bounds, Position};

verus! {

/// A game in progress. Its model is the [`Position`] that `@` gives.
pub struct Board {
    cells: Vec<Cell>,
    cols: usize,
    rows: usize,
    turn: Player,
}

impl View for Board {
    type V = Position;

    closed spec fn view(&self) -> Position {
        Position {
            cols: self.cols as int,
            rows: self.rows as int,
            cells: self.cells@,
            turn: self.turn,
        }
    }
}

/// A coordinate no more than `margin` beyond the range that `isize` and
/// `usize` span together: far enough from the limits of `i128` that the
/// cells of the windows around it can be computed without overflow.
spec fn near(x: int, margin: int) -> bool {
    -0x1_0000_0000_0000_0000 - margin <= x <= 0x1_0000_0000_0000_0000 + margin
}

impl Board {
    /// The board's grid is well formed: every board that `new` makes is,
    /// and every method keeps it so.
    pub open spec fn wf(&self) -> bool {
        self@.wf()
    }

    /// A board of `cols` columns and `rows` rows with every cell empty and
    /// red to move.
    pub fn new(cols: usize, rows: usize) -> (board: Board)
        requires
            cols >= 1,
            rows >= 1,
            cols * rows <= usize::MAX,
        ensures
            board@ == Position::start(cols as int, rows as int),
            board.wf(),
    {
        let count: usize = cols * rows;
        let mut cells: Vec<Cell> = Vec::with_capacity(count);
        let mut filled: usize = 0;
        while filled < count
            invariant
                filled <= count,
                cells@.len() == filled,
                forall|i: int| 0 <= i < filled ==> cells@[i] == Cell::Empty,
            decreases count - filled,
        {
            cells.push(Cell::Empty);
            filled += 1;
        }
        let board = Board { cells, cols, rows, turn: Player::Red };
        assert(board@.cells =~= Position::start(cols as int, rows as int).cells);
        board
    }

    /// The number of columns.
    pub fn cols(&self) -> (cols: usize)
        ensures
            cols == self@.cols,
    {
        self.cols
    }

    /// The number of rows.
    pub fn rows(&self) -> (rows: usize)
        ensures
            rows == self@.rows,
    {
        self.rows
    }

    /// The player who moves next, or who has just won.
    pub fn turn(&self) -> (turn: Player)
        ensures
            turn == self@.turn,
    {
        self.turn
    }

    /// The cell at `(col, row)`, or `Empty` where the grid has no such cell.
    pub(crate) fn probe(&self, col: i128, row: i128) -> (cell: Cell)
        requires
            self.wf(),
        ensures
            cell == self@.cell(col as int, row as int),
    {
        if col < 0 || row < 0 || col >= self.cols as i128 || row >= self.rows as i128 {
            Cell::Empty
        } else {
            let c: usize = col as usize;
            let r: usize = row as usize;
            proof {
                vstd::std_specs::vec::axiom_spec_len(&self.cells);
                slot_in_bounds(self.cols as int, self.rows as int, c as int, r as int);
            }
            self.cells[c + r * self.cols]
        }
    }

    /// The cell at `(col, row)`. Outside the grid every cell reads as
    /// `Empty`.
    pub fn cell_at(&self, col: isize, row: isize) -> (cell: Cell)
        requires
            self.wf(),
        ensures
            cell == self@.cell(col as int, row as int),
            !self@.in_grid(col as int, row as int) ==> cell == Cell::Empty,
    {
        self.probe(col as i128, row as i128)
    }

    /// Puts `cell` at `(col, row)`. Outside the grid nothing is written.
    fn set_cell(&mut self, col: usize, row: usize, cell: Cell)
        requires
            old(self).wf(),
        ensures
            final(self).wf(),
            final(self)@ == (if old(self)@.in_grid(col as int, row as int) {
                Position {
                    cells: old(self)@.cells.update(old(self)@.slot(col as int, row as int), cell),
                    ..old(self)@
                }
            } else {
                old(self)@
            }),
    {
        if col < self.cols && row < self.rows {
            proof {
                vstd::std_specs::vec::axiom_spec_len(&self.cells);
                slot_in_bounds(self.cols as int, self.rows as int, col as int, row as int);
            }
            let slot: usize = col + row * self.cols;
            self.cells.set(slot, cell);
        }
    }

    /// Whether `(col, row)` holds a token of `who`.
    fn holds(&self, who: Player, col: i128, row: i128) -> (yes: bool)
        requires
            self.wf(),
        ensures
            yes == self@.owned(who, col as int, row as int),
    {
        self.probe(col, row) == Cell::Player(who)
    }

    /// Whether the four cells from `(col, row)` on in steps of `(dc, dr)`
    /// all hold tokens of `who`.
    fn window_owned(&self, who: Player, col: i128, row: i128, dc: i128, dr: i128) -> (all: bool)
        requires
            self.wf(),
            near(col as int, 3),
            near(row as int, 3),
            -1 <= dc <= 1,
            -1 <= dr <= 1,
        ensures
            all == self@.window(who, col as int, row as int, dc as int, dr as int),
    {
        self.holds(who, col, row) && self.holds(who, col + dc, row + dr) && self.holds(
            who,
            col + 2 * dc,
            row + 2 * dr,
        ) && self.holds(who, col + 3 * dc, row + 3 * dr)
    }

    /// Whether one of the four windows along `(dc, dr)` that contain
    /// `(col, row)` is filled by `who`.
    fn line_owned(&self, who: Player, col: i128, row: i128, dc: i128, dr: i128) -> (any: bool)
        requires
            self.wf(),
            near(col as int, 0),
            near(row as int, 0),
            -1 <= dc <= 1,
            -1 <= dr <= 1,
        ensures
            any == self@.line_through(who, col as int, row as int, dc as int, dr as int),
    {
        self.window_owned(who, col, row, dc, dr) || self.window_owned(
            who,
            col - dc,
            row - dr,
            dc,
            dr,
        ) || self.window_owned(who, col - 2 * dc, row - 2 * dr, dc, dr) || self.window_owned(
            who,
            col - 3 * dc,
            row - 3 * dr,
            dc,
            dr,
        )
    }

    /// Whether `who` has four in a line through `(col, row)`.
    fn wins_for(&self, who: Player, col: i128, row: i128) -> (won: bool)
        requires
            self.wf(),
            near(col as int, 0),
            near(row as int, 0),
        ensures
            won == self@.wins_at(who, col as int, row as int),
    {
        self.line_owned(who, col, row, 0, 1) || self.line_owned(who, col, row, 1, 0)
            || self.line_owned(who, col, row, 1, 1) || self.line_owned(who, col, row, 1, -1)
    }

    /// The row of the empty cell of greatest row in column `col`, if the
    /// column has one.
    fn find_landing_row(&self, col: usize) -> (found: Option<usize>)
        requires
            self.wf(),
            col < self@.cols,
        ensures
            match found {
                Some(row) => row == self@.landing_row(col as int) && row < self@.rows,
                None => self@.landing_row(col as int) == -1,
            },
    {
        let mut row: usize = self.rows;
        while row > 0
            invariant
                self.wf(),
                col < self@.cols,
                row <= self.rows,
                self@.landing_row(col as int) == self@.lowest_open(col as int, row as int),
            decreases row,
        {
            row -= 1;
            proof {
                slot_in_bounds(self.cols as int, self.rows as int, col as int, row as int);
                vstd::std_specs::vec::axiom_spec_len(&self.cells);
            }
            if self.cells[col + row * self.cols] == Cell::Empty {
                return Some(row);
            }
        }
        None
    }

    /// Drops a token of the player to move into column `column`. The token
    /// comes to rest on the empty cell of greatest row in that column. If
    /// it completes four in a line through that cell, the player has won
    /// and keeps the turn; if not, the turn passes to the other player.
    /// A drop into a column that is full, or that the board does not have,
    /// is rejected and changes nothing.
    pub fn drop(&mut self, column: u32) -> (result: Result<Outcome, PlacementError>)
        requires
            old(self).wf(),
        ensures
            final(self).wf(),
            result == old(self)@.drop_result(column as int),
            final(self)@ == old(self)@.after_drop(column as int),
            result is Err ==> final(self)@ == old(self)@,
    {
        if column as usize >= self.cols {
            return Err(PlacementError::ColumnOutOfRange);
        }
        let col: usize = column as usize;
        proof {
            old(self)@.lowest_open_is_greatest_empty(col as int, self.rows as int);
        }
        match self.find_landing_row(col) {
            None => Err(PlacementError::ColumnFull),
            Some(row) => {
                let mover: Player = self.turn;
                self.set_cell(col, row, Cell::Player(mover));
                proof {
                    assert(old(self)@.cell(col as int, row as int) == Cell::Empty);
                    assert(self@ == old(self)@.placed(col as int));
                }
                if self.wins_for(mover, col as i128, row as i128) {
                    Ok(Outcome::Win(mover))
                } else {
                    self.turn = mover.other();
                    Ok(Outcome::Continue)
                }
            },
        }
    }

    /// Whether the player to move has four in a line through `(col, row)`:
    /// four adjoining cells that include `(col, row)`, down the column,
    /// along the row or along a diagonal, all with that player's tokens.
    pub fn check_win(&self, col: isize, row: isize) -> (won: bool)
        requires
            self.wf(),
        ensures
            won == self@.wins_at(self@.turn, col as int, row as int),
    {
        self.wins_for(self.turn, col as i128, row as i128)
    }
}

} // verus!
