use connect_four::{intent_for_key, Args, Intent, Outcome, PlacementError, Player};

#[test]
fn players_have_names_and_opponents() {
    assert_eq!(Player::Red.name(), "Red");
    assert_eq!(Player::Blue.name(), "Blue");
    assert_eq!(Player::Red.other(), Player::Blue);
    assert_eq!(Player::Blue.other(), Player::Red);
    assert_eq!(Player::Red.other().other(), Player::Red);
}

#[test]
fn outcomes_have_messages() {
    assert_eq!(Outcome::Continue.message(), "Valid Column");
    assert_eq!(Outcome::Win(Player::Red).message(), "Red Won");
    assert_eq!(Outcome::Win(Player::Blue).message(), "Blue Won");
}

#[test]
fn rejections_have_messages() {
    assert_eq!(PlacementError::ColumnFull.message(), "Column Is Full");
    assert_eq!(PlacementError::ColumnOutOfRange.message(), "Column Is Out Of Range");
}

#[test]
fn default_board_is_seven_by_six() {
    let args = Args::default();
    assert_eq!(args.cols, 7);
    assert_eq!(args.rows, 6);
}

#[test]
fn q_quits() {
    assert_eq!(intent_for_key('q', 7), Intent::Quit);
    assert_eq!(intent_for_key('q', 1), Intent::Quit);
}

#[test]
fn digits_name_columns_from_one() {
    assert_eq!(intent_for_key('1', 7), Intent::Drop(0));
    assert_eq!(intent_for_key('4', 7), Intent::Drop(3));
    assert_eq!(intent_for_key('7', 7), Intent::Drop(6));
    assert_eq!(intent_for_key('9', 12), Intent::Drop(8));
    assert_eq!(intent_for_key('1', 1), Intent::Drop(0));
}

#[test]
fn digits_without_a_column_are_out_of_range() {
    assert_eq!(intent_for_key('0', 7), Intent::OutOfRange);
    assert_eq!(intent_for_key('8', 7), Intent::OutOfRange);
    assert_eq!(intent_for_key('9', 7), Intent::OutOfRange);
    assert_eq!(intent_for_key('2', 1), Intent::OutOfRange);
}

#[test]
fn other_keys_are_no_numbers() {
    assert_eq!(intent_for_key('a', 7), Intent::NotANumber);
    assert_eq!(intent_for_key('Q', 7), Intent::NotANumber);
    assert_eq!(intent_for_key(' ', 7), Intent::NotANumber);
    assert_eq!(intent_for_key('/', 7), Intent::NotANumber);
    assert_eq!(intent_for_key(':', 7), Intent::NotANumber);
    assert_eq!(intent_for_key('\u{0663}', 7), Intent::NotANumber);
}
