//! The values a cell, a turn and the result of a move can take.

use vstd::prelude::*;

verus! {

/// One of the two players.
#[derive(Debug, Clone, Copy, PartialEq, Eq, Structural)]
pub enum Player {
    Red,
    Blue,
}

/// What a cell of the grid holds.
#[derive(Debug, Clone, Copy, PartialEq, Eq, Structural)]
pub enum Cell {
    Empty,
    Player(Player),
}

/// What a successful drop leads to.
#[derive(Debug, Clone, Copy, PartialEq, Eq, Structural)]
pub enum Outcome {
    /// The game goes on and the turn has passed to the other player.
    Continue,
    /// The player who moved has four in a line.
    Win(Player),
}

/// Why a drop was rejected. A rejected drop changes nothing.
#[derive(Debug, Clone, Copy, PartialEq, Eq, Structural)]
pub enum PlacementError {
    /// Every cell of the column is occupied.
    ColumnFull,
    /// The board has no column of that index.
    ColumnOutOfRange,
}

impl Player {
    /// The opponent of `self`.
    pub open spec fn opponent(self) -> Player {
        match self {
            Player::Red => Player::Blue,
            Player::Blue => Player::Red,
        }
    }

    /// The player who moves after `self`.
    pub fn other(self) -> (next: Player)
        ensures
            next == self.opponent(),
    {
        match self {
            Player::Red => Player::Blue,
            Player::Blue => Player::Red,
        }
    }

    /// The text of the player's name.
    pub open spec fn name_text(self) -> Seq<char> {
        match self {
            Player::Red => "Red"@,
            Player::Blue => "Blue"@,
        }
    }

    /// The player's name, `Red` or `Blue`.
    pub fn name(self) -> (label: String)
        ensures
            label@ == self.name_text(),
    {
        match self {
            Player::Red => "Red".to_owned(),
            Player::Blue => "Blue".to_owned(),
        }
    }
}

impl Outcome {
    /// The text that announces the outcome.
    pub open spec fn message_text(self) -> Seq<char> {
        match self {
            Outcome::Continue => "Valid Column"@,
            Outcome::Win(Player::Red) => "Red Won"@,
            Outcome::Win(Player::Blue) => "Blue Won"@,
        }
    }

    /// The announcement of the outcome: who won, or that the move stands.
    pub fn message(self) -> (text: String)
        ensures
            text@ == self.message_text(),
    {
        match self {
            Outcome::Continue => "Valid Column".to_owned(),
            Outcome::Win(Player::Red) => "Red Won".to_owned(),
            Outcome::Win(Player::Blue) => "Blue Won".to_owned(),
        }
    }
}

impl PlacementError {
    /// The text that reports the rejection.
    pub open spec fn message_text(self) -> Seq<char> {
        match self {
            PlacementError::ColumnFull => "Column Is Full"@,
            PlacementError::ColumnOutOfRange => "Column Is Out Of Range"@,
        }
    }

    /// The report of the rejection, for display.
    pub fn message(self) -> (text: String)
        ensures
            text@ == self.message_text(),
    {
        match self {
            PlacementError::ColumnFull => "Column Is Full".to_owned(),
            PlacementError::ColumnOutOfRange => "Column Is Out Of Range".to_owned(),
        }
    }
}

} // verus!
