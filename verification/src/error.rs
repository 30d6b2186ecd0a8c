//! The service's errors, and the kinds of failure that it tells apart.

use vstd::prelude::*;

verus! {

/// An error of the service itself.
#[derive(Clone, Copy, Debug, PartialEq, Eq, Structural)]
pub enum BotError {
    NoDB,
    InvalidDateTime,
    PoisonError,
    WrongFlagType,
}

impl BotError {
    /// The text that describes the error.
    pub open spec fn text(self) -> Seq<char> {
        match self {
            BotError::NoDB => "Database is not reachable"@,
            BotError::InvalidDateTime => "Invalid date-time given"@,
            BotError::PoisonError => "Poison error"@,
            BotError::WrongFlagType => "Incorrect flag type"@,
        }
    }

    /// The text that describes the error.
    pub fn message(&self) -> (message: String)
        ensures
            message@ == self.text(),
    {
        match self {
            BotError::NoDB => "Database is not reachable".to_owned(),
            BotError::InvalidDateTime => "Invalid date-time given".to_owned(),
            BotError::PoisonError => "Poison error".to_owned(),
            BotError::WrongFlagType => "Incorrect flag type".to_owned(),
        }
    }
}

/// The kinds of failure, by what is done about each.
#[derive(Clone, Copy, Debug, PartialEq, Eq, Structural)]
pub enum FailureKind {
    /// The store cannot be reached: passed on to the caller, who tries again
    /// or logs.
    StorageUnavailable,
    /// A row that was looked for is not there: part of the normal course.
    NotFound,
    /// An action was decided but a switched-off flag holds it back: logged.
    PolicyBlocked,
    /// The platform or the mail transport failed: logged for the one item,
    /// the rest of a batch goes on.
    ExternalApiFailure,
    /// What a member sent cannot be accepted: the member is told, and nothing
    /// changes.
    ValidationFailure,
}

} // verus!
