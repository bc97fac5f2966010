use vstd::prelude::*;

verus! {

/// Why an operation on a game record was refused.
///
/// An operation that returns one of these leaves the record exactly as it was.
#[derive(Clone, Copy, Debug, PartialEq, Eq, Structural)]
pub enum ErrorCode {
    /// The player has no paid plays left.
    NoPlaysLeft,
    /// The caller is not allowed to perform the action.
    Unauthorized,
    /// A move is not one of rock (0), paper (1) or scissors (2).
    InvalidMove,
    /// A stored record does not have the fixed layout.
    CorruptRecord,
    /// Adding the points of a match would exceed the range of the score.
    ScoreOverflow,
}

impl ErrorCode {
    /// The message shown to a user for this error.
    pub fn message(&self) -> (text: &'static str)
        ensures
            text@ == Self::spec_message(*self),
    {
        match self {
            ErrorCode::NoPlaysLeft => "No plays left. Please pay to get more plays.",
            ErrorCode::Unauthorized => "Unauthorized to perform this action.",
            ErrorCode::InvalidMove => "Invalid move. Choose 0 (rock), 1 (paper) or 2 (scissors).",
            ErrorCode::CorruptRecord => "Stored record does not match the expected layout.",
            ErrorCode::ScoreOverflow => "Score overflow.",
        }
    }

    /// The text of [`ErrorCode::message`].
    pub open spec fn spec_message(e: ErrorCode) -> Seq<char> {
        match e {
            ErrorCode::NoPlaysLeft => "No plays left. Please pay to get more plays."@,
            ErrorCode::Unauthorized => "Unauthorized to perform this action."@,
            ErrorCode::InvalidMove => "Invalid move. Choose 0 (rock), 1 (paper) or 2 (scissors)."@,
            ErrorCode::CorruptRecord => "Stored record does not match the expected layout."@,
            ErrorCode::ScoreOverflow => "Score overflow."@,
        }
    }
}

} // verus!
