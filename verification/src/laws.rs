//! What holds of every position, proved from the definitions the board's
//! contracts are stated in.

use vstd::prelude::*;
use crate::piece::{Cell, Outcome, PlacementError, Player};
use crate::position::{slot_in_bounds, slot_is_injective, Position};

verus! {

/// `(dc, dr)` is one of the four directions a line can run in: down the
/// column, along the row, or along either diagonal.
pub open spec fn is_direction(dc: int, dr: int) -> bool {
    ||| (dc == 0 && dr == 1)
    ||| (dc == 1 && dr == 0)
    ||| (dc == 1 && dr == 1)
    ||| (dc == 1 && dr == -1)
}

/// The start position of a grid with at least one column and one row is
/// well formed, and every cell of it reads as empty.
pub proof fn start_is_empty(cols: int, rows: int)
    requires
        cols >= 1,
        rows >= 1,
    ensures
        Position::start(cols, rows).wf(),
        Position::start(cols, rows).turn == Player::Red,
        forall|col: int, row: int| #[trigger]
            Position::start(cols, rows).cell(col, row) == Cell::Empty,
{
    assert(cols * rows >= 0) by (nonlinear_arith)
        requires
            cols >= 1,
            rows >= 1,
    ;
    assert forall|col: int, row: int| #[trigger]
        Position::start(cols, rows).cell(col, row) == Cell::Empty by {
        if Position::start(cols, rows).in_grid(col, row) {
            slot_in_bounds(cols, rows, col, row);
        }
    }
}

/// A token dropped into a column that has an empty cell comes to rest on
/// the empty cell of greatest row in that column: that cell was empty,
/// every cell of the column below it was occupied, it now holds a token of
/// the player who moved, and every other cell reads as before.
pub proof fn drop_fills_lowest_open(p: Position, col: int)
    requires
        p.wf(),
        0 <= col < p.cols,
        !p.column_full(col),
    ensures
        p.drop_result(col) is Ok,
        0 <= p.landing_row(col) < p.rows,
        p.cell(col, p.landing_row(col)) == Cell::Empty,
        forall|row: int| p.landing_row(col) < row < p.rows ==> p.cell(col, row) != Cell::Empty,
        p.after_drop(col).wf(),
        p.after_drop(col).cols == p.cols,
        p.after_drop(col).rows == p.rows,
        p.after_drop(col).cell(col, p.landing_row(col)) == Cell::Player(p.turn),
        forall|c: int, r: int|
            !(c == col && r == p.landing_row(col)) ==> #[trigger] p.after_drop(col).cell(c, r)
                == p.cell(c, r),
{
    let land = p.landing_row(col);
    p.lowest_open_is_greatest_empty(col, p.rows);
    slot_in_bounds(p.cols, p.rows, col, land);
    placed_changes_one_cell(p, col);
    assert forall|c: int, r: int| !(c == col && r == land) implies #[trigger] p.after_drop(
        col,
    ).cell(c, r) == p.cell(c, r) by {
        assert(p.after_drop(col).cell(c, r) == p.placed(col).cell(c, r));
    }
}

/// Placing a token in a column that has an empty cell changes the landing
/// cell and no other.
proof fn placed_changes_one_cell(p: Position, col: int)
    requires
        p.wf(),
        0 <= col < p.cols,
        !p.column_full(col),
    ensures
        p.placed(col).wf(),
        p.placed(col).cell(col, p.landing_row(col)) == Cell::Player(p.turn),
        forall|c: int, r: int|
            !(c == col && r == p.landing_row(col)) ==> #[trigger] p.placed(col).cell(c, r)
                == p.cell(c, r),
{
    let land = p.landing_row(col);
    p.lowest_open_is_greatest_empty(col, p.rows);
    slot_in_bounds(p.cols, p.rows, col, land);
    assert forall|c: int, r: int| !(c == col && r == land) implies #[trigger] p.placed(col).cell(
        c,
        r,
    ) == p.cell(c, r) by {
        if p.in_grid(c, r) {
            slot_in_bounds(p.cols, p.rows, c, r);
            if p.slot(c, r) == p.slot(col, land) {
                slot_is_injective(p.cols, c, r, col, land);
            }
        }
    }
}

/// A drop into a full column is rejected as such and changes nothing:
/// every cell and the turn stay as they were.
pub proof fn full_column_rejected(p: Position, col: int)
    requires
        p.wf(),
        0 <= col < p.cols,
        p.column_full(col),
    ensures
        p.drop_result(col) == Err::<Outcome, PlacementError>(PlacementError::ColumnFull),
        p.after_drop(col) == p,
{
}

/// A drop into a column that the grid does not have is rejected as such
/// and changes nothing.
pub proof fn missing_column_rejected(p: Position, col: int)
    requires
        p.wf(),
        !(0 <= col < p.cols),
    ensures
        p.drop_result(col) == Err::<Outcome, PlacementError>(PlacementError::ColumnOutOfRange),
        p.after_drop(col) == p,
{
}

/// A drop never changes the size of the grid, never empties a cell and
/// never changes a token: it keeps the position well formed, and every
/// occupied cell reads after it as before.
pub proof fn drop_keeps_tokens(p: Position, col: int)
    requires
        p.wf(),
    ensures
        p.after_drop(col).wf(),
        p.after_drop(col).cols == p.cols,
        p.after_drop(col).rows == p.rows,
        forall|c: int, r: int|
            p.cell(c, r) != Cell::Empty ==> #[trigger] p.after_drop(col).cell(c, r) == p.cell(
                c,
                r,
            ),
{
    if p.drop_result(col) is Ok {
        drop_fills_lowest_open(p, col);
    }
}

/// A winning drop reports the player who moved as the winner and leaves
/// the turn with that player, and the win can be read off the position it
/// leaves: the player to move has four in a line through the landing cell.
pub proof fn winning_drop_keeps_turn(p: Position, col: int, winner: Player)
    requires
        p.wf(),
        p.drop_result(col) == Ok::<Outcome, PlacementError>(Outcome::Win(winner)),
    ensures
        winner == p.turn,
        p.after_drop(col).turn == winner,
        p.after_drop(col).wins_at(p.after_drop(col).turn, col, p.landing_row(col)),
{
}

/// A drop that is accepted and does not win passes the turn to the other
/// player, and leaves the player who moved without four in a line through
/// the landing cell.
pub proof fn continuing_drop_passes_turn(p: Position, col: int)
    requires
        p.wf(),
        p.drop_result(col) == Ok::<Outcome, PlacementError>(Outcome::Continue),
    ensures
        p.after_drop(col).turn == p.turn.opponent(),
        p.after_drop(col).turn != p.turn,
        !p.after_drop(col).wins_at(p.turn, col, p.landing_row(col)),
{
}

/// Playing a sequence of drops keeps the position well formed and the grid
/// at its size.
pub proof fn play_keeps_grid(p: Position, moves: Seq<int>)
    requires
        p.wf(),
    ensures
        p.play(moves).wf(),
        p.play(moves).cols == p.cols,
        p.play(moves).rows == p.rows,
    decreases moves.len(),
{
    if moves.len() > 0 {
        play_keeps_grid(p, moves.drop_last());
        drop_keeps_tokens(p.play(moves.drop_last()), moves.last());
    }
}

/// The turn alternates strictly: after `n` accepted drops none of which
/// wins, the player to move is the one who started where `n` is even and
/// the other where `n` is odd.
pub proof fn turn_alternates(p: Position, moves: Seq<int>)
    requires
        p.wf(),
        p.all_continue(moves),
    ensures
        p.play(moves).turn == (if moves.len() % 2 == 0 {
            p.turn
        } else {
            p.turn.opponent()
        }),
    decreases moves.len(),
{
    if moves.len() > 0 {
        turn_alternates(p, moves.drop_last());
        play_keeps_grid(p, moves.drop_last());
        continuing_drop_passes_turn(p.play(moves.drop_last()), moves.last());
    }
}

/// A game starts with red to move: after `n` accepted drops from the start
/// position none of which wins, red is to move where `n` is even and blue
/// where `n` is odd.
pub proof fn turn_alternates_from_start(cols: int, rows: int, moves: Seq<int>)
    requires
        cols >= 1,
        rows >= 1,
        Position::start(cols, rows).all_continue(moves),
    ensures
        Position::start(cols, rows).play(moves).turn == (if moves.len() % 2 == 0 {
            Player::Red
        } else {
            Player::Blue
        }),
{
    start_is_empty(cols, rows);
    turn_alternates(Position::start(cols, rows), moves);
}

/// A rejected drop, whatever the reason, changes neither a cell nor the
/// turn.
pub proof fn rejected_drop_changes_nothing(p: Position, col: int)
    requires
        p.wf(),
        p.drop_result(col) is Err,
    ensures
        p.after_drop(col) == p,
{
}

/// Four in a line is enough to win: where the four cells of a window along
/// one of the four directions all hold tokens of `who`, `who` has won at
/// each of those four cells. A longer line wins in the same way, by any
/// four adjoining cells of it.
pub proof fn four_in_line_wins(p: Position, who: Player, col: int, row: int, dc: int, dr: int)
    requires
        is_direction(dc, dr),
        p.window(who, col, row, dc, dr),
    ensures
        p.wins_at(who, col, row),
        p.wins_at(who, col + dc, row + dr),
        p.wins_at(who, col + 2 * dc, row + 2 * dr),
        p.wins_at(who, col + 3 * dc, row + 3 * dr),
{
}

/// Four in a line is needed to win: where `who` has won at `(col, row)`,
/// there are a direction and a window of four cells along it that contains
/// `(col, row)` and is filled with tokens of `who`.
pub proof fn win_needs_four_in_line(p: Position, who: Player, col: int, row: int) -> (line: (
    int,
    int,
    int,
))
    requires
        p.wins_at(who, col, row),
    ensures
        is_direction(line.0, line.1),
        0 <= line.2 <= 3,
        p.window(who, col - line.2 * line.0, row - line.2 * line.1, line.0, line.1),
        p.owned(who, col, row),
{
    let (dc, dr): (int, int) = if p.line_through(who, col, row, 0, 1) {
        (0, 1)
    } else if p.line_through(who, col, row, 1, 0) {
        (1, 0)
    } else if p.line_through(who, col, row, 1, 1) {
        (1, 1)
    } else {
        (1, -1)
    };
    let back: int = if p.window(who, col, row, dc, dr) {
        0
    } else if p.window(who, col - dc, row - dr, dc, dr) {
        1
    } else if p.window(who, col - 2 * dc, row - 2 * dr, dc, dr) {
        2
    } else {
        3
    };
    (dc, dr, back)
}

/// A count of cells is never negative and never more than was asked for.
pub proof fn reach_is_bounded(
    p: Position,
    who: Player,
    col: int,
    row: int,
    dc: int,
    dr: int,
    steps: int,
)
    ensures
        0 <= p.reach(who, col, row, dc, dr, steps),
        steps >= 0 ==> p.reach(who, col, row, dc, dr, steps) <= steps,
    decreases steps,
{
    if steps > 0 && p.owned(who, col + dc, row + dr) {
        reach_is_bounded(p, who, col + dc, row + dr, dc, dr, steps - 1);
    }
}

/// The count along a direction reaches one, two or three exactly when the
/// first one, two or three cells in that direction hold tokens of `who`.
proof fn reach_counts_cells(
    p: Position,
    who: Player,
    col: int,
    row: int,
    dc: int,
    dr: int,
    steps: int,
)
    requires
        steps >= 3,
    ensures
        p.reach(who, col, row, dc, dr, steps) >= 1 <==> p.owned(who, col + dc, row + dr),
        p.reach(who, col, row, dc, dr, steps) >= 2 <==> p.owned(who, col + dc, row + dr)
            && p.owned(who, col + 2 * dc, row + 2 * dr),
        p.reach(who, col, row, dc, dr, steps) >= 3 <==> p.owned(who, col + dc, row + dr)
            && p.owned(who, col + 2 * dc, row + 2 * dr) && p.owned(
            who,
            col + 3 * dc,
            row + 3 * dr,
        ),
{
    let (c1, r1) = (col + dc, row + dr);
    let (c2, r2) = (c1 + dc, r1 + dr);
    let (c3, r3) = (c2 + dc, r2 + dr);
    assert(c2 == col + 2 * dc && r2 == row + 2 * dr);
    assert(c3 == col + 3 * dc && r3 == row + 3 * dr);
    reach_is_bounded(p, who, c1, r1, dc, dr, steps - 1);
    reach_is_bounded(p, who, c2, r2, dc, dr, steps - 2);
    reach_is_bounded(p, who, c3, r3, dc, dr, steps - 3);
    assert(p.reach(who, col, row, dc, dr, steps) == if p.owned(who, c1, r1) {
        1 + p.reach(who, c1, r1, dc, dr, steps - 1)
    } else {
        0
    });
    assert(p.reach(who, c1, r1, dc, dr, steps - 1) == if p.owned(who, c2, r2) {
        1 + p.reach(who, c2, r2, dc, dr, steps - 2)
    } else {
        0
    });
    assert(p.reach(who, c2, r2, dc, dr, steps - 2) == if p.owned(who, c3, r3) {
        1 + p.reach(who, c3, r3, dc, dr, steps - 3)
    } else {
        0
    });
}

/// The two ways of finding a win agree: one of the four windows along a
/// direction through `(col, row)` is filled by `who` exactly when the
/// unbroken run of tokens of `who` through `(col, row)` along that
/// direction is at least four long. Three in a row is no win, and a run
/// broken by an empty cell or a token of the other player counts only as
/// far as the break. It is enough to count three cells to either side.
pub proof fn line_iff_run_of_four(
    p: Position,
    who: Player,
    col: int,
    row: int,
    dc: int,
    dr: int,
    steps: int,
)
    requires
        steps >= 3,
    ensures
        p.line_through(who, col, row, dc, dr) <==> p.run_length(who, col, row, dc, dr, steps) >= 4,
{
    reach_counts_cells(p, who, col, row, dc, dr, steps);
    reach_counts_cells(p, who, col, row, -dc, -dr, steps);
    assert(col + (-dc) == col - dc && col + 2 * (-dc) == col - 2 * dc && col + 3 * (-dc) == col
        - 3 * dc);
    assert(row + (-dr) == row - dr && row + 2 * (-dr) == row - 2 * dr && row + 3 * (-dr) == row
        - 3 * dr);
    assert(col - dc + dc == col && col - dc + 2 * dc == col + dc && col - dc + 3 * dc == col + 2
        * dc);
    assert(row - dr + dr == row && row - dr + 2 * dr == row + dr && row - dr + 3 * dr == row + 2
        * dr);
    assert(col - 2 * dc + dc == col - dc && col - 2 * dc + 2 * dc == col && col - 2 * dc + 3
        * dc == col + dc);
    assert(row - 2 * dr + dr == row - dr && row - 2 * dr + 2 * dr == row && row - 2 * dr + 3
        * dr == row + dr);
    assert(col - 3 * dc + dc == col - 2 * dc && col - 3 * dc + 2 * dc == col - dc && col - 3
        * dc + 3 * dc == col);
    assert(row - 3 * dr + dr == row - 2 * dr && row - 3 * dr + 2 * dr == row - dr && row - 3
        * dr + 3 * dr == row);
}

/// `who` has won at `(col, row)` exactly when the run of tokens of `who`
/// through that cell is at least four long in one of the four directions.
pub proof fn win_iff_run_of_four(p: Position, who: Player, col: int, row: int, steps: int)
    requires
        steps >= 3,
    ensures
        p.wins_at(who, col, row) <==> {
            ||| p.run_length(who, col, row, 0, 1, steps) >= 4
            ||| p.run_length(who, col, row, 1, 0, steps) >= 4
            ||| p.run_length(who, col, row, 1, 1, steps) >= 4
            ||| p.run_length(who, col, row, 1, -1, steps) >= 4
        },
{
    line_iff_run_of_four(p, who, col, row, 0, 1, steps);
    line_iff_run_of_four(p, who, col, row, 1, 0, steps);
    line_iff_run_of_four(p, who, col, row, 1, 1, steps);
    line_iff_run_of_four(p, who, col, row, 1, -1, steps);
}

} // verus!
