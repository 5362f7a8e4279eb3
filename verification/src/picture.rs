//! The board as a picture for a colour terminal: a sequence of strokes,
//! each a short text in one ink, to be printed one after the other.

use vstd::prelude::*;
use vstd::string::StringExecFns;
use crate::board::Board;
use crate::piece::{Cell, Player};
use crate::position::Position;
use crate::text::{append_decimal, decimal_text};

verus! {

/// The colour a stroke is printed in.
#[derive(Debug, Clone, Copy, PartialEq, Eq, Structural)]
pub enum Ink {
    /// The terminal's own colour.
    Plain,
    Green,
    Red,
    Blue,
}

/// One stroke of the picture.
#[derive(Debug, Clone, Copy, PartialEq, Eq, Structural)]
pub enum Stroke {
    /// The line that says whose turn it is.
    Turn(Player),
    /// The frame above one cell.
    Post,
    /// The right end of a frame.
    PostEnd,
    /// The bar between two cells and at either end of a row.
    Bar,
    /// An empty cell.
    Blank,
    /// A cell with a token of this player.
    Token(Player),
    /// The number below a column.
    Label(usize),
    /// The end of a line.
    LineEnd,
}

impl Stroke {
    /// The ink of the stroke: green for the turn, a token in its player's
    /// colour, everything else plain.
    pub open spec fn ink_of(self) -> Ink {
        match self {
            Stroke::Turn(_) => Ink::Green,
            Stroke::Token(Player::Red) => Ink::Red,
            Stroke::Token(Player::Blue) => Ink::Blue,
            _ => Ink::Plain,
        }
    }

    /// The text of the stroke.
    pub open spec fn text_of(self) -> Seq<char> {
        match self {
            Stroke::Turn(who) => "It is "@ + who.name_text() + "'s turn"@,
            Stroke::Post => "+----"@,
            Stroke::PostEnd => "+"@,
            Stroke::Bar => "|"@,
            Stroke::Blank => "    "@,
            Stroke::Token(_) => " O  "@,
            Stroke::Label(number) => "  "@ + decimal_text(number as nat) + "  "@,
            Stroke::LineEnd => "\n"@,
        }
    }

    /// The colour to print the stroke in.
    pub fn ink(self) -> (ink: Ink)
        ensures
            ink == self.ink_of(),
    {
        match self {
            Stroke::Turn(_) => Ink::Green,
            Stroke::Token(Player::Red) => Ink::Red,
            Stroke::Token(Player::Blue) => Ink::Blue,
            _ => Ink::Plain,
        }
    }

    /// The text to print for the stroke.
    pub fn text(self) -> (text: String)
        ensures
            text@ == self.text_of(),
    {
        match self {
            Stroke::Turn(who) => {
                let mut text: String = "It is ".to_owned();
                match who {
                    Player::Red => text.append("Red"),
                    Player::Blue => text.append("Blue"),
                }
                text.append("'s turn");
                text
            },
            Stroke::Post => "+----".to_owned(),
            Stroke::PostEnd => "+".to_owned(),
            Stroke::Bar => "|".to_owned(),
            Stroke::Blank => "    ".to_owned(),
            Stroke::Token(_) => " O  ".to_owned(),
            Stroke::Label(number) => {
                let mut text: String = "  ".to_owned();
                append_decimal(&mut text, number);
                text.append("  ");
                text
            },
            Stroke::LineEnd => "\n".to_owned(),
        }
    }
}

/// The stroke for a cell.
pub open spec fn cell_stroke(cell: Cell) -> Stroke {
    match cell {
        Cell::Empty => Stroke::Blank,
        Cell::Player(who) => Stroke::Token(who),
    }
}

/// The frame of a row of `count` cells: a post for each, and the end.
pub open spec fn frame_strokes(count: int) -> Seq<Stroke> {
    Seq::new(count as nat, |i: int| Stroke::Post) + seq![Stroke::PostEnd, Stroke::LineEnd]
}

/// The numbers of the first `count` columns, from 1 on, and the end of
/// the line.
pub open spec fn label_strokes(count: int) -> Seq<Stroke> {
    Seq::new(count as nat, |i: int| Stroke::Label((i + 1) as usize)) + seq![Stroke::LineEnd]
}

impl Position {
    /// The first `count` cells of row `row`, a bar before each.
    pub open spec fn cell_strokes(self, row: int, count: int) -> Seq<Stroke>
        decreases count,
    {
        if count <= 0 {
            Seq::empty()
        } else {
            self.cell_strokes(row, count - 1) + seq![
                Stroke::Bar,
                cell_stroke(self.cell(count - 1, row)),
            ]
        }
    }

    /// Row `row`: its frame above, then its cells between bars.
    pub open spec fn row_strokes(self, row: int) -> Seq<Stroke> {
        frame_strokes(self.cols) + self.cell_strokes(row, self.cols) + seq![
            Stroke::Bar,
            Stroke::LineEnd,
        ]
    }

    /// The first `count` rows, from row 0 on.
    pub open spec fn rows_strokes(self, count: int) -> Seq<Stroke>
        decreases count,
    {
        if count <= 0 {
            Seq::empty()
        } else {
            self.rows_strokes(count - 1) + self.row_strokes(count - 1)
        }
    }

    /// The whole picture: whose turn it is, the rows, the frame below the
    /// last row, and the column numbers.
    pub open spec fn picture(self) -> Seq<Stroke> {
        seq![Stroke::Turn(self.turn), Stroke::LineEnd] + self.rows_strokes(self.rows)
            + frame_strokes(self.cols) + label_strokes(self.cols)
    }
}

/// Adds the frame of a row of `count` cells to `strokes`.
fn push_frame(strokes: &mut Vec<Stroke>, count: usize)
    ensures
        final(strokes)@ == old(strokes)@ + frame_strokes(count as int),
{
    let mut done: usize = 0;
    while done < count
        invariant
            done <= count,
            strokes@ == old(strokes)@ + Seq::new(done as nat, |i: int| Stroke::Post),
        decreases count - done,
    {
        strokes.push(Stroke::Post);
        done += 1;
        assert(strokes@ =~= old(strokes)@ + Seq::new(done as nat, |i: int| Stroke::Post));
    }
    strokes.push(Stroke::PostEnd);
    strokes.push(Stroke::LineEnd);
    assert(strokes@ =~= old(strokes)@ + frame_strokes(count as int));
}

/// Adds the numbers of the first `count` columns to `strokes`.
fn push_labels(strokes: &mut Vec<Stroke>, count: usize)
    ensures
        final(strokes)@ == old(strokes)@ + label_strokes(count as int),
{
    let mut done: usize = 0;
    while done < count
        invariant
            done <= count,
            strokes@ == old(strokes)@ + Seq::new(
                done as nat,
                |i: int| Stroke::Label((i + 1) as usize),
            ),
        decreases count - done,
    {
        strokes.push(Stroke::Label(done + 1));
        done += 1;
        assert(strokes@ =~= old(strokes)@ + Seq::new(
            done as nat,
            |i: int| Stroke::Label((i + 1) as usize),
        ));
    }
    strokes.push(Stroke::LineEnd);
    assert(strokes@ =~= old(strokes)@ + label_strokes(count as int));
}

impl Board {
    /// Adds the cells of row `row` to `strokes`.
    fn push_cells(&self, strokes: &mut Vec<Stroke>, row: usize)
        requires
            self.wf(),
        ensures
            final(strokes)@ == old(strokes)@ + self@.cell_strokes(row as int, self@.cols),
    {
        let cols: usize = self.cols();
        let mut col: usize = 0;
        assert(strokes@ =~= old(strokes)@ + self@.cell_strokes(row as int, 0));
        while col < cols
            invariant
                self.wf(),
                cols == self@.cols,
                col <= cols,
                strokes@ == old(strokes)@ + self@.cell_strokes(row as int, col as int),
            decreases cols - col,
        {
            strokes.push(Stroke::Bar);
            match self.probe(col as i128, row as i128) {
                Cell::Empty => strokes.push(Stroke::Blank),
                Cell::Player(who) => strokes.push(Stroke::Token(who)),
            }
            col += 1;
            assert(strokes@ =~= old(strokes)@ + self@.cell_strokes(row as int, col as int));
        }
    }

    /// The picture of the board: the strokes to print, in order, for the
    /// line that says whose turn it is, each row under its frame, the
    /// frame below the last row, and the column numbers from 1.
    pub fn picture(&self) -> (strokes: Vec<Stroke>)
        requires
            self.wf(),
        ensures
            strokes@ == self@.picture(),
    {
        let cols: usize = self.cols();
        let rows: usize = self.rows();
        let mut strokes: Vec<Stroke> = Vec::new();
        strokes.push(Stroke::Turn(self.turn()));
        strokes.push(Stroke::LineEnd);
        let ghost head = strokes@;
        let mut row: usize = 0;
        assert(strokes@ =~= head + self@.rows_strokes(0));
        while row < rows
            invariant
                self.wf(),
                cols == self@.cols,
                rows == self@.rows,
                row <= rows,
                strokes@ == head + self@.rows_strokes(row as int),
            decreases rows - row,
        {
            let ghost before = strokes@;
            push_frame(&mut strokes, cols);
            self.push_cells(&mut strokes, row);
            strokes.push(Stroke::Bar);
            strokes.push(Stroke::LineEnd);
            assert(strokes@ =~= before + self@.row_strokes(row as int));
            row += 1;
            assert(strokes@ =~= head + self@.rows_strokes(row as int));
        }
        push_frame(&mut strokes, cols);
        push_labels(&mut strokes, cols);
        assert(head =~= seq![Stroke::Turn(self@.turn), Stroke::LineEnd]);
        strokes
    }
}

} // verus!
