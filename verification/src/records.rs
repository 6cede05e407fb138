//! The persisted record schema of the protocol.
//!
//! Party identities are plain account identifiers; value amounts are in the
//! token's base units. Each record carries a well-formedness predicate that
//! its constructor establishes and every instruction preserves.

use vstd::prelude::*;

use crate::settlement::MAX_FEE_BPS;

verus! {

/// The lifecycle of a match: `Pending` until an outcome is recorded,
/// `Completed` afterward. The transition is one-way.
#[derive(Clone, Copy, PartialEq, Eq, Structural, Debug)]
pub enum MatchStatus {
    Pending,
    Completed,
}

/// The lifecycle of a bet: `Active` from placement until a claim resolves
/// it, `Settled` afterward. The transition is one-way.
#[derive(Clone, Copy, PartialEq, Eq, Structural, Debug)]
pub enum BetStatus {
    Active,
    Settled,
}

/// Which execution context currently holds exclusive mutation authority
/// over a delegable record.
#[derive(Clone, Copy, PartialEq, Eq, Structural, Debug)]
pub enum DelegationState {
    /// The authoritative ledger may mutate the record directly.
    Owned,
    /// A secondary, lower-latency context holds exclusive authority; the
    /// primary path must refuse mutation until a commit reconciles it back.
    Delegated,
}

/// The singleton platform configuration: one instance per deployment,
/// created once, mutated only by settlement-side bookkeeping.
#[derive(Clone, Copy, PartialEq, Eq, Structural, Debug)]
pub struct PlatformConfig {
    /// The party allowed to settle matches.
    pub authority: u64,
    /// The identity receiving platform fees.
    pub treasury: u64,
    /// The fee skimmed on settlement, in basis points, bounded by
    /// [`MAX_FEE_BPS`].
    pub platform_fee: u64,
    /// Set exactly once, at initialization.
    pub is_initialized: bool,
    /// How many bets were placed platform-wide.
    pub total_bets: u64,
    /// Total stake volume placed platform-wide.
    pub total_volume: u64,
}

impl PlatformConfig {
    /// Configuration-time invariant: the fee bound keeps every later
    /// settlement's net payout nonnegative.
    pub open spec fn wf(self) -> bool {
        self.platform_fee <= MAX_FEE_BPS
    }
}

/// A registered match. Created `Pending` with an empty winner; settled
/// exactly once, after which only bet-count bookkeeping may change.
pub struct Match {
    pub team_a: String,
    pub team_b: String,
    /// Unique identity; the record's address derives from it.
    pub match_id: String,
    /// Scheduled start, as a timestamp.
    pub start_time: i64,
    pub status: MatchStatus,
    /// Empty until settled; set once, together with the transition to
    /// `Completed`.
    pub winner: String,
    /// The party that registered the match.
    pub authority: u64,
    /// How many bets reference this match.
    pub total_bets: u64,
}

impl Match {
    /// A pending match has no winner recorded yet.
    pub open spec fn wf(self) -> bool {
        self.status == MatchStatus::Pending ==> self.winner@ == Seq::<char>::empty()
    }
}

/// A user's custody and bookkeeping record, created lazily on first
/// interaction. The balance changes only through checked arithmetic.
#[derive(Clone, Copy, PartialEq, Eq, Structural, Debug)]
pub struct UserAccount {
    /// The identity owning this account; the record's address derives
    /// from it.
    pub owner: u64,
    /// Custody balance in the token's base units.
    pub token_balance: u64,
    /// Bets placed and not yet settled.
    pub active_bets: u64,
    /// Bets ever placed.
    pub total_bets: u64,
    /// Bets settled as won.
    pub won_bets: u64,
}

impl UserAccount {
    /// A fresh account for `owner` with nothing staked yet.
    pub fn new(owner: u64) -> (u: UserAccount)
        ensures
            u == (UserAccount { owner, token_balance: 0, active_bets: 0, total_bets: 0, won_bets: 0 }),
    {
        UserAccount { owner, token_balance: 0, active_bets: 0, total_bets: 0, won_bets: 0 }
    }
}

/// A wager: one per (bettor, match) pair, addressed deterministically by
/// those two seeds. Mutated only by settlement, never deleted.
pub struct Bet {
    /// The identity that staked the amount.
    pub bettor: u64,
    /// The match this bet references (exactly one).
    pub match_id: String,
    /// The stake, strictly positive, held in escrow until settled.
    pub amount: u64,
    /// The outcome the bettor committed to.
    pub predicted_winner: String,
    /// The odds multiplier snapshotted from the oracle at creation time;
    /// immutable afterward, so bet economics never shift after commitment.
    pub odds: u64,
    pub status: BetStatus,
    /// Whether the bet settled as won; meaningful once `Settled`.
    pub won: bool,
    /// The net amount paid out; zero until settled, and zero forever on a
    /// losing bet.
    pub payout: u64,
}

impl Bet {
    /// Every bet stakes a strictly positive amount, and an active bet has
    /// no payout recorded.
    pub open spec fn wf(self) -> bool {
        &&& self.amount > 0
        &&& self.status == BetStatus::Active ==> !self.won && self.payout == 0
    }
}

} // verus!
