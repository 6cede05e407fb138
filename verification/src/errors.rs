//! The error taxonomy of the protocol.
//!
//! Every instruction returns success or exactly one tagged error; there is
//! no partial-success status. All errors are terminal for the instruction
//! that raised them: state is left as of the last successfully committed
//! transition.

use vstd::prelude::*;

verus! {

/// One tagged failure per instruction.
#[derive(Clone, Copy, PartialEq, Eq, Structural, Debug)]
pub enum ErrorCode {
    /// Authority mismatch: the acting party may not perform this action.
    Unauthorized,
    /// A custody balance cannot cover the requested transfer.
    InsufficientBalance,
    /// Temporal precondition: the game already started (or was completed),
    /// so no new bets are accepted.
    GameAlreadyStarted,
    /// Temporal precondition: the game has no recorded outcome yet.
    GameNotStarted,
    /// One-way transition violated: the bet was already settled.
    BetAlreadySettled,
    /// One-way transition violated: the match outcome was already recorded.
    GameAlreadySettled,
    /// A checked-arithmetic guard tripped; nothing wraps silently.
    NumericalOverflow,
    /// Input validation: the referenced game data is inconsistent.
    InvalidGameData,
    /// Input validation: a bet must stake a strictly positive amount.
    InvalidBetAmount,
    /// Claim on a losing prediction: no payout, the bet settles as lost.
    NotWinner,
    /// Input validation: the platform fee exceeds the configurable bound.
    InvalidPlatformFee,
    /// The derived address already holds a match record.
    DuplicateMatch,
    /// The odds oracle failed to produce a multiplier at bet creation.
    OracleVerificationFailed,
    /// Delegation protocol misuse: commit on a record that is not
    /// delegated, or out-of-bounds rollup state.
    InvalidRollupData,
}

} // verus!
