//! What a key pressed by a player asks for.

use vstd::prelude::*;
use vstd::string::StringExecFns;
use crate::board::Board;
use crate::piece::{Outcome, PlacementError};
use crate::position::Position;
use crate::text::{append_decimal, decimal_text};

verus! {

/// What a key asks the game to do.
#[derive(Debug, Clone, Copy, PartialEq, Eq, Structural)]
pub enum Intent {
    /// Leave the game.
    Quit,
    /// Drop a token into the column of this index, counted from 0.
    Drop(u32),
    /// The key is a digit, but the board has no column of that number.
    OutOfRange,
    /// The key is neither `q` nor a digit.
    NotANumber,
}

/// The meaning of `key` on a board of `cols` columns. Players number the
/// columns from 1, so the digit `d` asks for the column of index `d - 1`.
pub open spec fn intent_of(key: char, cols: int) -> Intent {
    let code = key as u32 as int;
    if key == 'q' {
        Intent::Quit
    } else if 48 <= code <= 57 {
        if 1 <= code - 48 <= cols {
            Intent::Drop((code - 49) as u32)
        } else {
            Intent::OutOfRange
        }
    } else {
        Intent::NotANumber
    }
}

/// Reads a key: `q` quits, a digit from 1 to `cols` names a column, any
/// other digit is out of range, and any other key is no number.
pub fn intent_for_key(key: char, cols: usize) -> (intent: Intent)
    ensures
        intent == intent_of(key, cols as int),
        intent matches Intent::Drop(column) ==> column < cols && column < 9,
{
    let code: u32 = key as u32;
    if key == 'q' {
        Intent::Quit
    } else if code >= 48 && code <= 57 {
        let digit: u32 = code - 48;
        if digit >= 1 && digit as usize <= cols {
            Intent::Drop(digit - 1)
        } else {
            Intent::OutOfRange
        }
    } else {
        Intent::NotANumber
    }
}

/// What the game answers to a key.
#[derive(Debug, Clone, Copy, PartialEq, Eq, Structural)]
pub enum Reply {
    /// The player leaves the game.
    Quit,
    /// A token was dropped, with this outcome.
    Played(Outcome),
    /// The key named a column, and the drop was rejected.
    Rejected(PlacementError),
    /// The key is a digit, but the board has no column of that number.
    OutOfRange,
    /// The key is neither `q` nor a digit.
    NotANumber,
}

impl Position {
    /// The answer to `key`: what the key asks for, and for a column what
    /// the drop into it reports.
    pub open spec fn reply_to(self, key: char) -> Reply {
        match intent_of(key, self.cols) {
            Intent::Quit => Reply::Quit,
            Intent::Drop(column) => match self.drop_result(column as int) {
                Ok(outcome) => Reply::Played(outcome),
                Err(rejection) => Reply::Rejected(rejection),
            },
            Intent::OutOfRange => Reply::OutOfRange,
            Intent::NotANumber => Reply::NotANumber,
        }
    }

    /// The position after `key`: after the drop where the key names a
    /// column, unchanged where it does not.
    pub open spec fn after_key(self, key: char) -> Position {
        match intent_of(key, self.cols) {
            Intent::Drop(column) => self.after_drop(column as int),
            _ => self,
        }
    }
}

impl Reply {
    /// What to tell the player after this reply on a board of `cols`
    /// columns, where there is something to complain of.
    pub open spec fn complaint_text(self, cols: nat) -> Option<Seq<char>> {
        match self {
            Reply::Quit => None,
            Reply::Played(_) => None,
            Reply::Rejected(rejection) => Some(rejection.message_text()),
            Reply::OutOfRange => Some("Number Must be Between 1 and "@ + decimal_text(cols)),
            Reply::NotANumber => Some("Not A number"@),
        }
    }

    /// The complaint to show the player: none after a quit or an accepted
    /// drop, else why the key did not lead to one.
    pub fn complaint(self, cols: usize) -> (text: Option<String>)
        ensures
            match text {
                Some(words) => self.complaint_text(cols as nat) == Some(words@),
                None => self.complaint_text(cols as nat) is None,
            },
    {
        match self {
            Reply::Quit => None,
            Reply::Played(_) => None,
            Reply::Rejected(rejection) => Some(rejection.message()),
            Reply::OutOfRange => {
                let mut words: String = "Number Must be Between 1 and ".to_owned();
                append_decimal(&mut words, cols);
                Some(words)
            },
            Reply::NotANumber => Some("Not A number".to_owned()),
        }
    }
}

impl Board {
    /// Answers a key: `q` quits, a digit that numbers a column drops a
    /// token into it, and any other key changes nothing. A key never
    /// reaches a column that the board does not have.
    pub fn press(&mut self, key: char) -> (reply: Reply)
        requires
            old(self).wf(),
        ensures
            final(self).wf(),
            reply == old(self)@.reply_to(key),
            final(self)@ == old(self)@.after_key(key),
            reply != Reply::Rejected(PlacementError::ColumnOutOfRange),
            !(reply is Played) ==> final(self)@ == old(self)@,
    {
        match intent_for_key(key, self.cols()) {
            Intent::Quit => Reply::Quit,
            Intent::Drop(column) => match self.drop(column) {
                Ok(outcome) => Reply::Played(outcome),
                Err(rejection) => Reply::Rejected(rejection),
            },
            Intent::OutOfRange => Reply::OutOfRange,
            Intent::NotANumber => Reply::NotANumber,
        }
    }
}

} // verus!
