use connect_four::Board;

#[test]
fn empty_single_cell_board_as_text() {
    let board = Board::new(1, 1);
    assert_eq!(board.to_text(), "|---|\n|   |\n|---|\n  1  \n");
}

#[test]
fn two_by_two_board_as_text() {
    let mut board = Board::new(2, 2);
    assert_eq!(
        board.to_text(),
        "|---||---|\n|   ||   |\n|---||---|\n|---||---|\n|   ||   |\n|---||---|\n  1    2  \n"
    );
    let _ = board.drop(0);
    assert_eq!(
        board.to_text(),
        "|---||---|\n|   ||   |\n|---||---|\n|---||---|\n| O ||   |\n|---||---|\n  1    2  \n"
    );
    let _ = board.drop(0);
    let _ = board.drop(1);
    assert_eq!(
        board.to_text(),
        "|---||---|\n| O ||   |\n|---||---|\n|---||---|\n| O || O |\n|---||---|\n  1    2  \n"
    );
}

#[test]
fn column_numbers_are_written_in_decimal() {
    let board = Board::new(12, 1);
    let text = board.to_text();
    let lines: Vec<&str> = text.split('\n').collect();
    assert_eq!(lines.len(), 5);
    assert_eq!(lines[0], "|---|".repeat(12));
    assert_eq!(lines[1], "|   |".repeat(12));
    assert_eq!(lines[2], "|---|".repeat(12));
    assert_eq!(
        lines[3],
        "  1    2    3    4    5    6    7    8    9    10    11    12  "
    );
    assert_eq!(lines[4], "");
}

#[test]
fn wide_board_numbers_keep_their_zeros() {
    let board = Board::new(101, 1);
    let text = board.to_text();
    assert!(text.ends_with("  99    100    101  \n"));
    assert!(text.contains("  19    20    21  "));
}

#[test]
fn default_board_as_text_has_a_line_for_each_frame_and_row() {
    let board = Board::new(7, 6);
    let text = board.to_text();
    assert_eq!(text.matches('\n').count(), 19);
    assert_eq!(text.len(), 18 * 36 + 36);
    assert!(!text.contains('O'));
}
