//! The reasons for which a call is refused.

use vstd::prelude::*;

verus! {

/// Every error that an entry point of the contract returns.
#[derive(Clone, Copy, Debug, PartialEq, Eq, Structural)]
pub enum Error {
    /// The caller is not who the call is reserved for, or the contract is not initialized.
    Unauthorized,
    /// The proposed admin is the zero account or the current admin.
    InvalidAdmin,
    /// The contract is paused.
    ContractPaused,
    /// The contract is not paused.
    NotPaused,
    /// The stake is not positive.
    InvalidAmount,
    /// A player cannot be matched against themselves.
    InvalidPlayers,
    /// The game id is empty or too long.
    InvalidGameId,
    /// The game id already belongs to a match.
    DuplicateGameId,
    /// The token is not the contract's token.
    InvalidToken,
    /// A match is already stored under the next id.
    AlreadyExists,
    /// The match counter cannot grow any further.
    Overflow,
    /// There is no such match.
    MatchNotFound,
    /// The match is cancelled. A reserved code: calls answer `InvalidState`.
    MatchCancelled,
    /// The match is completed. A reserved code: calls answer `InvalidState`.
    MatchCompleted,
    /// The match is not in the state that the call works on.
    InvalidState,
    /// The player has already deposited.
    AlreadyFunded,
    /// The player has not approved the stake for the contract.
    InsufficientAllowance,
    /// The token refused a transfer.
    TransferFailed,
    /// The game id is not that of the match.
    GameIdMismatch,
    /// The players have not both deposited.
    NotFunded,
    /// The dispute window forbids the call: it is still open for a payout, already closed
    /// for an override.
    DisputeWindowActive,
    /// It is too early to claim the timeout.
    MatchTimedOut,
}

} // verus!
