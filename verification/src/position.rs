//! The mathematical model of a game: a grid of cells in row-major order and
//! the player to move. Rows are numbered from the top, so the cell a token
//! falls to is the free cell of greatest row index in its column.

use vstd::prelude::*;
use crate::piece::{Cell, Outcome, PlacementError, Player};

verus! {

/// A game state as plain mathematical values.
pub struct Position {
    /// Number of columns.
    pub cols: int,
    /// Number of rows.
    pub rows: int,
    /// The cells, the one at `(col, row)` at index `col + row * cols`.
    pub cells: Seq<Cell>,
    /// The player who moves next.
    pub turn: Player,
}

/// A cell inside a grid of `cols` columns and `rows` rows has its index
/// inside the grid's sequence of cells.
pub proof fn slot_in_bounds(cols: int, rows: int, col: int, row: int)
    requires
        0 <= col < cols,
        0 <= row < rows,
    ensures
        0 <= row * cols,
        0 <= col + row * cols < cols * rows,
{
    assert(0 <= row * cols) by (nonlinear_arith)
        requires
            0 <= row,
            0 <= cols,
    ;
    assert((row + 1) * cols <= rows * cols) by (nonlinear_arith)
        requires
            row + 1 <= rows,
            0 <= cols,
    ;
    assert((row + 1) * cols == row * cols + cols) by (nonlinear_arith);
    assert(rows * cols == cols * rows) by (nonlinear_arith);
}

/// Two cells of a grid of `cols` columns that share an index in its sequence
/// of cells are one cell.
pub proof fn slot_is_injective(cols: int, col_a: int, row_a: int, col_b: int, row_b: int)
    requires
        0 <= col_a < cols,
        0 <= col_b < cols,
        col_a + row_a * cols == col_b + row_b * cols,
    ensures
        col_a == col_b,
        row_a == row_b,
{
    if row_a < row_b {
        assert(row_b * cols >= row_a * cols + cols) by (nonlinear_arith)
            requires
                row_a + 1 <= row_b,
                0 <= cols,
        ;
    } else if row_b < row_a {
        assert(row_a * cols >= row_b * cols + cols) by (nonlinear_arith)
            requires
                row_b + 1 <= row_a,
                0 <= cols,
        ;
    }
}

impl Position {
    /// The grid has at least one column and one row, and one cell for each
    /// pair of them.
    pub open spec fn wf(self) -> bool {
        &&& self.cols >= 1
        &&& self.rows >= 1
        &&& self.cells.len() == self.cols * self.rows
    }

    /// The position a game starts from: every cell empty, red to move.
    pub open spec fn start(cols: int, rows: int) -> Position {
        Position {
            cols,
            rows,
            cells: Seq::new((cols * rows) as nat, |i: int| Cell::Empty),
            turn: Player::Red,
        }
    }

    /// `(col, row)` names a cell of the grid.
    pub open spec fn in_grid(self, col: int, row: int) -> bool {
        0 <= col < self.cols && 0 <= row < self.rows
    }

    /// The index of `(col, row)` in `cells`.
    pub open spec fn slot(self, col: int, row: int) -> int {
        col + row * self.cols
    }

    /// What stands at `(col, row)`; outside the grid nothing does.
    pub open spec fn cell(self, col: int, row: int) -> Cell {
        if self.in_grid(col, row) {
            self.cells[self.slot(col, row)]
        } else {
            Cell::Empty
        }
    }

    /// `(col, row)` holds a token of `who`.
    pub open spec fn owned(self, who: Player, col: int, row: int) -> bool {
        self.cell(col, row) == Cell::Player(who)
    }

    /// The four cells from `(col, row)` on in steps of `(dc, dr)` all hold
    /// tokens of `who`.
    pub open spec fn window(self, who: Player, col: int, row: int, dc: int, dr: int) -> bool {
        &&& self.owned(who, col, row)
        &&& self.owned(who, col + dc, row + dr)
        &&& self.owned(who, col + 2 * dc, row + 2 * dr)
        &&& self.owned(who, col + 3 * dc, row + 3 * dr)
    }

    /// One of the four windows along `(dc, dr)` that contain `(col, row)` is
    /// filled by `who`.
    pub open spec fn line_through(self, who: Player, col: int, row: int, dc: int, dr: int) -> bool {
        ||| self.window(who, col, row, dc, dr)
        ||| self.window(who, col - dc, row - dr, dc, dr)
        ||| self.window(who, col - 2 * dc, row - 2 * dr, dc, dr)
        ||| self.window(who, col - 3 * dc, row - 3 * dr, dc, dr)
    }

    /// `who` has four in a line through `(col, row)`: down the column, along
    /// the row, or along one of the two diagonals.
    pub open spec fn wins_at(self, who: Player, col: int, row: int) -> bool {
        ||| self.line_through(who, col, row, 0, 1)
        ||| self.line_through(who, col, row, 1, 0)
        ||| self.line_through(who, col, row, 1, 1)
        ||| self.line_through(who, col, row, 1, -1)
    }

    /// How many cells in a row, from the one next to `(col, row)` on in
    /// steps of `(dc, dr)`, hold tokens of `who`, counting no more than
    /// `steps` of them.
    pub open spec fn reach(self, who: Player, col: int, row: int, dc: int, dr: int, steps: int)
        -> int
        decreases steps,
    {
        if steps <= 0 || !self.owned(who, col + dc, row + dr) {
            0
        } else {
            1 + self.reach(who, col + dc, row + dr, dc, dr, steps - 1)
        }
    }

    /// The length of the unbroken run of tokens of `who` through
    /// `(col, row)` along `(dc, dr)`, counted up to `steps` cells to either
    /// side; 0 where the cell itself is not a token of `who`.
    pub open spec fn run_length(
        self,
        who: Player,
        col: int,
        row: int,
        dc: int,
        dr: int,
        steps: int,
    ) -> int {
        if self.owned(who, col, row) {
            1 + self.reach(who, col, row, dc, dr, steps) + self.reach(
                who,
                col,
                row,
                -dc,
                -dr,
                steps,
            )
        } else {
            0
        }
    }

    /// The greatest row below `limit` whose cell in `col` is empty, or `-1`
    /// where there is none.
    pub open spec fn lowest_open(self, col: int, limit: int) -> int
        decreases limit,
    {
        if limit <= 0 {
            -1
        } else if self.cell(col, limit - 1) == Cell::Empty {
            limit - 1
        } else {
            self.lowest_open(col, limit - 1)
        }
    }

    /// The row a token dropped into `col` comes to rest in, or `-1` where
    /// the column has no empty cell.
    pub open spec fn landing_row(self, col: int) -> int {
        self.lowest_open(col, self.rows)
    }

    /// No cell of column `col` is empty.
    pub open spec fn column_full(self, col: int) -> bool {
        forall|row: int| 0 <= row < self.rows ==> self.cell(col, row) != Cell::Empty
    }

    /// The position with a token of the player to move on the landing cell
    /// of `col`, and the turn as it was.
    pub open spec fn placed(self, col: int) -> Position {
        Position {
            cells: self.cells.update(
                self.slot(col, self.landing_row(col)),
                Cell::Player(self.turn),
            ),
            ..self
        }
    }

    /// What a drop into `col` reports.
    pub open spec fn drop_result(self, col: int) -> Result<Outcome, PlacementError> {
        if !(0 <= col < self.cols) {
            Err(PlacementError::ColumnOutOfRange)
        } else if self.column_full(col) {
            Err(PlacementError::ColumnFull)
        } else if self.placed(col).wins_at(self.turn, col, self.landing_row(col)) {
            Ok(Outcome::Win(self.turn))
        } else {
            Ok(Outcome::Continue)
        }
    }

    /// The position after a drop into `col`: unchanged where the drop is
    /// rejected, else with the token placed, and with the turn passed on
    /// unless the token won.
    pub open spec fn after_drop(self, col: int) -> Position {
        match self.drop_result(col) {
            Err(_) => self,
            Ok(Outcome::Win(_)) => self.placed(col),
            Ok(Outcome::Continue) => Position { turn: self.turn.opponent(), ..self.placed(col) },
        }
    }

    /// The position after dropping into each column of `moves` in turn.
    pub open spec fn play(self, moves: Seq<int>) -> Position
        decreases moves.len(),
    {
        if moves.len() == 0 {
            self
        } else {
            self.play(moves.drop_last()).after_drop(moves.last())
        }
    }

    /// Every drop of `moves`, played from `self`, is accepted and none wins.
    pub open spec fn all_continue(self, moves: Seq<int>) -> bool
        decreases moves.len(),
    {
        moves.len() > 0 ==> {
            &&& self.all_continue(moves.drop_last())
            &&& self.play(moves.drop_last()).drop_result(moves.last()) == Ok::<
                Outcome,
                PlacementError,
            >(Outcome::Continue)
        }
    }

    /// `lowest_open` finds the empty cell of greatest row below `limit`:
    /// what it names is empty, nothing between it and `limit` is, and it
    /// names no row exactly when no cell below `limit` is empty.
    pub proof fn lowest_open_is_greatest_empty(self, col: int, limit: int)
        ensures
            -1 <= self.lowest_open(col, limit),
            limit >= 0 ==> self.lowest_open(col, limit) < limit,
            self.lowest_open(col, limit) >= 0 ==> self.cell(col, self.lowest_open(col, limit))
                == Cell::Empty,
            forall|row: int|
                self.lowest_open(col, limit) < row < limit ==> self.cell(col, row) != Cell::Empty,
        decreases limit,
    {
        if limit > 0 && self.cell(col, limit - 1) != Cell::Empty {
            self.lowest_open_is_greatest_empty(col, limit - 1);
        }
    }
}

} // verus!
