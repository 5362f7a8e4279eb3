use connect_four::{Board, Ink, Player, Stroke};

#[test]
fn picture_of_a_small_board() {
    let mut board = Board::new(2, 1);
    let _ = board.drop(1);
    assert_eq!(
        board.picture(),
        vec![
            Stroke::Turn(Player::Blue),
            Stroke::LineEnd,
            Stroke::Post,
            Stroke::Post,
            Stroke::PostEnd,
            Stroke::LineEnd,
            Stroke::Bar,
            Stroke::Blank,
            Stroke::Bar,
            Stroke::Token(Player::Red),
            Stroke::Bar,
            Stroke::LineEnd,
            Stroke::Post,
            Stroke::Post,
            Stroke::PostEnd,
            Stroke::LineEnd,
            Stroke::Label(1),
            Stroke::Label(2),
            Stroke::LineEnd,
        ]
    );
}

#[test]
fn picture_has_rows_from_the_top() {
    let mut board = Board::new(1, 2);
    let _ = board.drop(0);
    assert_eq!(
        board.picture(),
        vec![
            Stroke::Turn(Player::Blue),
            Stroke::LineEnd,
            Stroke::Post,
            Stroke::PostEnd,
            Stroke::LineEnd,
            Stroke::Bar,
            Stroke::Blank,
            Stroke::Bar,
            Stroke::LineEnd,
            Stroke::Post,
            Stroke::PostEnd,
            Stroke::LineEnd,
            Stroke::Bar,
            Stroke::Token(Player::Red),
            Stroke::Bar,
            Stroke::LineEnd,
            Stroke::Post,
            Stroke::PostEnd,
            Stroke::LineEnd,
            Stroke::Label(1),
            Stroke::LineEnd,
        ]
    );
}

#[test]
fn picture_printed_plainly() {
    let mut board = Board::new(2, 2);
    let _ = board.drop(0);
    let _ = board.drop(1);
    let mut printed = String::new();
    for stroke in board.picture() {
        printed.push_str(&stroke.text());
    }
    assert_eq!(
        printed,
        "It is Red's turn\n+----+----+\n|    |    |\n+----+----+\n| O  | O  |\n+----+----+\n  1    2  \n"
    );
}

#[test]
fn strokes_have_their_text() {
    assert_eq!(Stroke::Turn(Player::Red).text(), "It is Red's turn");
    assert_eq!(Stroke::Turn(Player::Blue).text(), "It is Blue's turn");
    assert_eq!(Stroke::Post.text(), "+----");
    assert_eq!(Stroke::PostEnd.text(), "+");
    assert_eq!(Stroke::Bar.text(), "|");
    assert_eq!(Stroke::Blank.text(), "    ");
    assert_eq!(Stroke::Token(Player::Red).text(), " O  ");
    assert_eq!(Stroke::Token(Player::Blue).text(), " O  ");
    assert_eq!(Stroke::Label(7).text(), "  7  ");
    assert_eq!(Stroke::Label(0).text(), "  0  ");
    assert_eq!(Stroke::Label(120).text(), "  120  ");
    assert_eq!(Stroke::Label(4096).text(), "  4096  ");
    assert_eq!(Stroke::LineEnd.text(), "\n");
}

#[test]
fn strokes_have_their_ink() {
    assert_eq!(Stroke::Turn(Player::Red).ink(), Ink::Green);
    assert_eq!(Stroke::Turn(Player::Blue).ink(), Ink::Green);
    assert_eq!(Stroke::Token(Player::Red).ink(), Ink::Red);
    assert_eq!(Stroke::Token(Player::Blue).ink(), Ink::Blue);
    assert_eq!(Stroke::Post.ink(), Ink::Plain);
    assert_eq!(Stroke::PostEnd.ink(), Ink::Plain);
    assert_eq!(Stroke::Bar.ink(), Ink::Plain);
    assert_eq!(Stroke::Blank.ink(), Ink::Plain);
    assert_eq!(Stroke::Label(3).ink(), Ink::Plain);
    assert_eq!(Stroke::LineEnd.ink(), Ink::Plain);
}
