use connect_four::{Board, Cell, Outcome, PlacementError, Player, Reply};

#[test]
fn pressing_a_digit_drops_into_that_column() {
    let mut board = Board::new(7, 6);
    assert_eq!(board.press('1'), Reply::Played(Outcome::Continue));
    assert_eq!(board.cell_at(0, 5), Cell::Player(Player::Red));
    assert_eq!(board.turn(), Player::Blue);
    assert_eq!(board.press('7'), Reply::Played(Outcome::Continue));
    assert_eq!(board.cell_at(6, 5), Cell::Player(Player::Blue));
    assert_eq!(board.turn(), Player::Red);
}

#[test]
fn pressing_other_keys_changes_nothing() {
    let mut board = Board::new(7, 6);
    assert_eq!(board.press('q'), Reply::Quit);
    assert_eq!(board.press('0'), Reply::OutOfRange);
    assert_eq!(board.press('8'), Reply::OutOfRange);
    assert_eq!(board.press('x'), Reply::NotANumber);
    assert_eq!(board.turn(), Player::Red);
    for row in 0..6 {
        for col in 0..7 {
            assert_eq!(board.cell_at(col, row), Cell::Empty);
        }
    }
}

#[test]
fn pressing_the_key_of_a_full_column_is_rejected() {
    let mut board = Board::new(3, 2);
    assert_eq!(board.press('2'), Reply::Played(Outcome::Continue));
    assert_eq!(board.press('2'), Reply::Played(Outcome::Continue));
    assert_eq!(board.press('2'), Reply::Rejected(PlacementError::ColumnFull));
    assert_eq!(board.turn(), Player::Red);
    assert_eq!(board.press('4'), Reply::OutOfRange);
}

#[test]
fn pressing_keys_to_a_win() {
    let mut board = Board::new(7, 6);
    for key in ['1', '2', '1', '2', '1', '2'] {
        assert_eq!(board.press(key), Reply::Played(Outcome::Continue));
    }
    assert_eq!(board.press('1'), Reply::Played(Outcome::Win(Player::Red)));
    assert_eq!(board.turn(), Player::Red);
}

#[test]
fn complaints_say_what_went_wrong() {
    assert_eq!(Reply::Quit.complaint(7), None);
    assert_eq!(Reply::Played(Outcome::Continue).complaint(7), None);
    assert_eq!(Reply::Played(Outcome::Win(Player::Blue)).complaint(7), None);
    assert_eq!(
        Reply::Rejected(PlacementError::ColumnFull).complaint(7),
        Some("Column Is Full".to_string())
    );
    assert_eq!(
        Reply::OutOfRange.complaint(7),
        Some("Number Must be Between 1 and 7".to_string())
    );
    assert_eq!(
        Reply::OutOfRange.complaint(25),
        Some("Number Must be Between 1 and 25".to_string())
    );
    assert_eq!(Reply::NotANumber.complaint(7), Some("Not A number".to_string()));
}
