//! The board as plain text: one framed line of cells for each row, and the
//! column numbers, counted from 1, below the last.

use vstd::prelude::*;
use vstd::string::StringExecFns;
use crate::board::Board;
use crate::piece::Cell;
use crate::position::Position;

verus! {

/// The decimal digit `d`.
pub open spec fn digit_text(d: int) -> Seq<char> {
    if d == 0 {
        "0"@
    } else if d == 1 {
        "1"@
    } else if d == 2 {
        "2"@
    } else if d == 3 {
        "3"@
    } else if d == 4 {
        "4"@
    } else if d == 5 {
        "5"@
    } else if d == 6 {
        "6"@
    } else if d == 7 {
        "7"@
    } else if d == 8 {
        "8"@
    } else {
        "9"@
    }
}

/// The number `n` in decimal digits, without leading zeros.
pub open spec fn decimal_text(n: nat) -> Seq<char>
    decreases n,
{
    if n < 10 {
        digit_text(n as int)
    } else {
        decimal_text(n / 10) + digit_text((n % 10) as int)
    }
}

/// The frame above and below a row of `count` cells.
pub open spec fn rule_text(count: int) -> Seq<char>
    decreases count,
{
    if count <= 0 {
        Seq::empty()
    } else {
        rule_text(count - 1) + "|---|"@
    }
}

/// One cell: blank where it is empty, a token where it is not.
pub open spec fn cell_text(cell: Cell) -> Seq<char> {
    match cell {
        Cell::Empty => "|   |"@,
        Cell::Player(_) => "| O |"@,
    }
}

/// The numbers of the first `count` columns, each between two blanks on
/// either side.
pub open spec fn labels_text(count: int) -> Seq<char>
    decreases count,
{
    if count <= 0 {
        Seq::empty()
    } else {
        labels_text(count - 1) + "  "@ + decimal_text(count as nat) + "  "@
    }
}

impl Position {
    /// The first `count` cells of row `row`.
    pub open spec fn cells_text(self, row: int, count: int) -> Seq<char>
        decreases count,
    {
        if count <= 0 {
            Seq::empty()
        } else {
            self.cells_text(row, count - 1) + cell_text(self.cell(count - 1, row))
        }
    }

    /// Row `row` between its two frames, three lines in all.
    pub open spec fn row_text(self, row: int) -> Seq<char> {
        rule_text(self.cols) + "\n"@ + self.cells_text(row, self.cols) + "\n"@ + rule_text(
            self.cols,
        ) + "\n"@
    }

    /// The first `count` rows, from row 0 on.
    pub open spec fn rows_text(self, count: int) -> Seq<char>
        decreases count,
    {
        if count <= 0 {
            Seq::empty()
        } else {
            self.rows_text(count - 1) + self.row_text(count - 1)
        }
    }

    /// The whole grid, row 0 first, and the line of column numbers.
    pub open spec fn text(self) -> Seq<char> {
        self.rows_text(self.rows) + labels_text(self.cols) + "\n"@
    }
}

/// Writes the decimal digits of `n` at the end of `text`.
pub(crate) fn append_decimal(text: &mut String, n: usize)
    ensures
        final(text)@ == old(text)@ + decimal_text(n as nat),
    decreases n,
{
    if n >= 10 {
        append_decimal(text, n / 10);
    }
    let digit: usize = n % 10;
    if digit == 0 {
        text.append("0");
    } else if digit == 1 {
        text.append("1");
    } else if digit == 2 {
        text.append("2");
    } else if digit == 3 {
        text.append("3");
    } else if digit == 4 {
        text.append("4");
    } else if digit == 5 {
        text.append("5");
    } else if digit == 6 {
        text.append("6");
    } else if digit == 7 {
        text.append("7");
    } else if digit == 8 {
        text.append("8");
    } else {
        text.append("9");
    }
    assert(text@ =~= old(text)@ + decimal_text(n as nat));
}

/// Writes the frame of a row of `count` cells at the end of `text`.
fn append_rule(text: &mut String, count: usize)
    ensures
        final(text)@ == old(text)@ + rule_text(count as int),
{
    let mut done: usize = 0;
    assert(text@ =~= old(text)@ + rule_text(0));
    while done < count
        invariant
            done <= count,
            text@ == old(text)@ + rule_text(done as int),
        decreases count - done,
    {
        text.append("|---|");
        done += 1;
        assert(text@ =~= old(text)@ + rule_text(done as int));
    }
}

/// Writes the numbers of the first `count` columns at the end of `text`.
fn append_labels(text: &mut String, count: usize)
    ensures
        final(text)@ == old(text)@ + labels_text(count as int),
{
    let mut done: usize = 0;
    assert(text@ =~= old(text)@ + labels_text(0));
    while done < count
        invariant
            done <= count,
            text@ == old(text)@ + labels_text(done as int),
        decreases count - done,
    {
        text.append("  ");
        append_decimal(text, done + 1);
        text.append("  ");
        done += 1;
        assert(text@ =~= old(text)@ + labels_text(done as int));
    }
}

impl Board {
    /// Writes the cells of row `row` at the end of `text`.
    fn append_cells(&self, text: &mut String, row: usize)
        requires
            self.wf(),
        ensures
            final(text)@ == old(text)@ + self@.cells_text(row as int, self@.cols),
    {
        let cols: usize = self.cols();
        let mut col: usize = 0;
        assert(text@ =~= old(text)@ + self@.cells_text(row as int, 0));
        while col < cols
            invariant
                self.wf(),
                cols == self@.cols,
                col <= cols,
                text@ == old(text)@ + self@.cells_text(row as int, col as int),
            decreases cols - col,
        {
            match self.probe(col as i128, row as i128) {
                Cell::Empty => text.append("|   |"),
                Cell::Player(_) => text.append("| O |"),
            }
            col += 1;
            assert(text@ =~= old(text)@ + self@.cells_text(row as int, col as int));
        }
    }

    /// The board as text: for each row, from row 0 on, a frame, the cells
    /// and a frame again, and below the last row the column numbers from 1.
    pub fn to_text(&self) -> (text: String)
        requires
            self.wf(),
        ensures
            text@ == self@.text(),
    {
        let cols: usize = self.cols();
        let rows: usize = self.rows();
        let mut text: String = String::new();
        let mut row: usize = 0;
        assert(text@ =~= self@.rows_text(0));
        while row < rows
            invariant
                self.wf(),
                cols == self@.cols,
                rows == self@.rows,
                row <= rows,
                text@ == self@.rows_text(row as int),
            decreases rows - row,
        {
            let ghost before = text@;
            append_rule(&mut text, cols);
            text.append("\n");
            self.append_cells(&mut text, row);
            text.append("\n");
            append_rule(&mut text, cols);
            text.append("\n");
            assert(text@ =~= before + self@.row_text(row as int));
            row += 1;
        }
        append_labels(&mut text, cols);
        text.append("\n");
        text
    }
}

} // verus!
