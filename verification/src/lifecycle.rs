//! The lifecycle engine: record-level instructions.
//!
//! Each instruction validates the current state, computes every delta with
//! checked arithmetic, and only then mutates the records it was handed.
//! Check-then-set is never separable: a failing instruction leaves every
//! record and balance exactly as it found it (with the single documented
//! exception of a losing claim, which settles the bet as lost).
//!
//! The `*_outcome` spec functions pin down, input by input, whether an
//! instruction succeeds and with which tagged error it otherwise fails;
//! the executable functions are proved to return exactly that outcome.

use vstd::prelude::*;

use crate::errors::ErrorCode;
use crate::math::{checked_add_u64, checked_sub_u64};
use crate::records::{Bet, BetStatus, Match, MatchStatus, PlatformConfig, UserAccount};
use crate::settlement::{compute_payout, spec_fee, spec_gross, spec_net, MAX_FEE_BPS};

verus! {

/// Creates the singleton platform configuration. A fee above
/// [`MAX_FEE_BPS`] would let a later settlement owe a negative net payout,
/// so it is rejected here, at configuration time, never at claim time.
pub fn initialize(authority: u64, treasury: u64, platform_fee: u64) -> (r: Result<
    PlatformConfig,
    ErrorCode,
>)
    ensures
        r is Ok <==> platform_fee <= MAX_FEE_BPS,
        match r {
            Ok(c) => c == (PlatformConfig {
                authority,
                treasury,
                platform_fee,
                is_initialized: true,
                total_bets: 0,
                total_volume: 0,
            }) && c.wf(),
            Err(e) => e == ErrorCode::InvalidPlatformFee,
        },
{
    if platform_fee > MAX_FEE_BPS {
        return Err(ErrorCode::InvalidPlatformFee);
    }
    Ok(
        PlatformConfig {
            authority,
            treasury,
            platform_fee,
            is_initialized: true,
            total_bets: 0,
            total_volume: 0,
        },
    )
}

/// Creates a match record in the `Pending` state with no winner recorded.
/// (Whether the derived address already holds a record is the account
/// store's check; see the ledger's `create_match`.)
pub fn create_match(
    team_a: String,
    team_b: String,
    match_id: String,
    start_time: i64,
    authority: u64,
) -> (m: Match)
    ensures
        m.team_a == team_a,
        m.team_b == team_b,
        m.match_id == match_id,
        m.start_time == start_time,
        m.status == MatchStatus::Pending,
        m.winner@ == Seq::<char>::empty(),
        m.authority == authority,
        m.total_bets == 0,
        m.wf(),
{
    Match {
        team_a,
        team_b,
        match_id,
        start_time,
        status: MatchStatus::Pending,
        winner: String::new(),
        authority,
        total_bets: 0,
    }
}

/// Whether a settlement attempt succeeds, and with which error it
/// otherwise fails. The one-way-transition guard is checked before the
/// authority guard.
pub open spec fn settle_outcome(m: Match, platform: PlatformConfig, acting_authority: u64) -> Result<
    (),
    ErrorCode,
> {
    if m.status == MatchStatus::Completed {
        Err(ErrorCode::GameAlreadySettled)
    } else if acting_authority != platform.authority {
        Err(ErrorCode::Unauthorized)
    } else {
        Ok(())
    }
}

/// Records the outcome of a match: sets `winner` and transitions
/// `Pending -> Completed`, exactly once, with no undo path. Only the
/// platform authority may settle. A failing call mutates nothing.
pub fn settle_match(
    m: &mut Match,
    platform: &PlatformConfig,
    acting_authority: u64,
    winner: String,
) -> (r: Result<(), ErrorCode>)
    ensures
        r is Ok <==> settle_outcome(*old(m), *platform, acting_authority) is Ok,
        match r {
            Ok(_) => {
                &&& old(m).status == MatchStatus::Pending
                &&& final(m).status == MatchStatus::Completed
                &&& final(m).winner == winner
                &&& final(m).team_a == old(m).team_a
                &&& final(m).team_b == old(m).team_b
                &&& final(m).match_id == old(m).match_id
                &&& final(m).start_time == old(m).start_time
                &&& final(m).authority == old(m).authority
                &&& final(m).total_bets == old(m).total_bets
                &&& final(m).wf()
            },
            Err(e) => Err::<(), ErrorCode>(e) == settle_outcome(*old(m), *platform, acting_authority)
                && *final(m) == *old(m),
        },
{
    if m.status == MatchStatus::Completed {
        return Err(ErrorCode::GameAlreadySettled);
    }
    if acting_authority != platform.authority {
        return Err(ErrorCode::Unauthorized);
    }
    m.winner = winner;
    m.status = MatchStatus::Completed;
    Ok(())
}

/// Law: the match lifecycle is monotonic. On a match already `Completed`,
/// settlement fails with `GameAlreadySettled` no matter who asks — and by
/// `settle_match`'s contract a failing call leaves the record, in
/// particular its recorded winner, untouched.
pub proof fn lemma_settled_match_is_final(m: Match, platform: PlatformConfig, acting_authority: u64)
    requires
        m.status == MatchStatus::Completed,
    ensures
        settle_outcome(m, platform, acting_authority) == Err::<(), ErrorCode>(
            ErrorCode::GameAlreadySettled,
        ),
{
}

/// Whether a bet placement succeeds, and with which error it otherwise
/// fails. Bets are accepted only against a match that is still `Pending`,
/// must stake a positive amount, need an odds multiplier from the oracle,
/// and must be coverable by the bettor's custody balance; every counter
/// increment must fit.
pub open spec fn place_bet_outcome(
    m: Match,
    platform: PlatformConfig,
    user: UserAccount,
    escrow_balance: u64,
    amount: u64,
    oracle_odds: Option<u64>,
) -> Result<(), ErrorCode> {
    if m.status != MatchStatus::Pending {
        Err(ErrorCode::GameAlreadyStarted)
    } else if amount == 0 {
        Err(ErrorCode::InvalidBetAmount)
    } else if oracle_odds is None {
        Err(ErrorCode::OracleVerificationFailed)
    } else if user.token_balance < amount {
        Err(ErrorCode::InsufficientBalance)
    } else if user.active_bets + 1 > u64::MAX || user.total_bets + 1 > u64::MAX
        || platform.total_bets + 1 > u64::MAX || platform.total_volume + amount > u64::MAX
        || m.total_bets + 1 > u64::MAX || escrow_balance + amount > u64::MAX {
        Err(ErrorCode::NumericalOverflow)
    } else {
        Ok(())
    }
}

/// Places a wager: moves `amount` from the bettor's custody into escrow
/// and creates the bet record, atomically — if anything fails, no funds
/// move and no record exists. The odds multiplier is snapshotted from the
/// oracle's answer at creation time. All counters grow through checked
/// arithmetic.
pub fn place_bet(
    m: &mut Match,
    platform: &mut PlatformConfig,
    user: &mut UserAccount,
    escrow_balance: &mut u64,
    amount: u64,
    predicted_winner: String,
    oracle_odds: Option<u64>,
) -> (r: Result<Bet, ErrorCode>)
    ensures
        r is Ok <==> place_bet_outcome(
            *old(m),
            *old(platform),
            *old(user),
            *old(escrow_balance),
            amount,
            oracle_odds,
        ) is Ok,
        match r {
            Ok(bet) => {
                &&& bet.bettor == old(user).owner
                &&& bet.match_id == old(m).match_id
                &&& bet.amount == amount
                &&& bet.predicted_winner == predicted_winner
                &&& oracle_odds == Some(bet.odds)
                &&& bet.status == BetStatus::Active
                &&& !bet.won
                &&& bet.payout == 0
                &&& bet.wf()
                &&& *final(m) == (Match { total_bets: (old(m).total_bets + 1) as u64, ..*old(m) })
                &&& *final(platform) == (PlatformConfig {
                    total_bets: (old(platform).total_bets + 1) as u64,
                    total_volume: (old(platform).total_volume + amount) as u64,
                    ..*old(platform)
                })
                &&& *final(user) == (UserAccount {
                    token_balance: (old(user).token_balance - amount) as u64,
                    active_bets: (old(user).active_bets + 1) as u64,
                    total_bets: (old(user).total_bets + 1) as u64,
                    ..*old(user)
                })
                &&& *final(escrow_balance) == *old(escrow_balance) + amount
                &&& final(user).token_balance + *final(escrow_balance) == old(user).token_balance
                    + *old(escrow_balance)
            },
            Err(e) => {
                &&& Err::<(), ErrorCode>(e) == place_bet_outcome(
                    *old(m),
                    *old(platform),
                    *old(user),
                    *old(escrow_balance),
                    amount,
                    oracle_odds,
                )
                &&& *final(m) == *old(m)
                &&& *final(platform) == *old(platform)
                &&& *final(user) == *old(user)
                &&& *final(escrow_balance) == *old(escrow_balance)
            },
        },
{
    if m.status != MatchStatus::Pending {
        return Err(ErrorCode::GameAlreadyStarted);
    }
    if amount == 0 {
        return Err(ErrorCode::InvalidBetAmount);
    }
    let odds = match oracle_odds {
        Some(o) => o,
        None => {
            return Err(ErrorCode::OracleVerificationFailed);
        },
    };
    if user.token_balance < amount {
        return Err(ErrorCode::InsufficientBalance);
    }
    // Compute every delta before mutating anything, so a tripped guard
    // leaves all records untouched.
    let new_active = match checked_add_u64(user.active_bets, 1) {
        Ok(v) => v,
        Err(e) => {
            return Err(e);
        },
    };
    let new_user_total = match checked_add_u64(user.total_bets, 1) {
        Ok(v) => v,
        Err(e) => {
            return Err(e);
        },
    };
    let new_platform_total = match checked_add_u64(platform.total_bets, 1) {
        Ok(v) => v,
        Err(e) => {
            return Err(e);
        },
    };
    let new_volume = match checked_add_u64(platform.total_volume, amount) {
        Ok(v) => v,
        Err(e) => {
            return Err(e);
        },
    };
    let new_match_total = match checked_add_u64(m.total_bets, 1) {
        Ok(v) => v,
        Err(e) => {
            return Err(e);
        },
    };
    let new_escrow = match checked_add_u64(*escrow_balance, amount) {
        Ok(v) => v,
        Err(e) => {
            return Err(e);
        },
    };
    let bet = Bet {
        bettor: user.owner,
        match_id: m.match_id.clone(),
        amount,
        predicted_winner,
        odds,
        status: BetStatus::Active,
        won: false,
        payout: 0,
    };
    user.token_balance = user.token_balance - amount;
    user.active_bets = new_active;
    user.total_bets = new_user_total;
    platform.total_bets = new_platform_total;
    platform.total_volume = new_volume;
    m.total_bets = new_match_total;
    *escrow_balance = new_escrow;
    Ok(bet)
}

/// Law: a zero-amount wager is rejected with `InvalidBetAmount` — and by
/// `place_bet`'s contract a rejected placement creates no record and moves
/// no funds.
pub proof fn lemma_zero_amount_bet_rejected(
    m: Match,
    platform: PlatformConfig,
    user: UserAccount,
    escrow_balance: u64,
    oracle_odds: Option<u64>,
)
    requires
        m.status == MatchStatus::Pending,
    ensures
        place_bet_outcome(m, platform, user, escrow_balance, 0, oracle_odds) == Err::<
            (),
            ErrorCode,
        >(ErrorCode::InvalidBetAmount),
{
}

/// One fewer active bet, never wrapping below zero.
pub open spec fn spec_dec(x: u64) -> u64 {
    if x > 0 {
        (x - 1) as u64
    } else {
        0
    }
}

/// Whether a claim succeeds, and with which error it otherwise fails.
/// A claim needs a finalized outcome, an unsettled bet, the bettor's own
/// account, a correct prediction, and an escrow able to cover the gross
/// payout; every balance change must fit.
pub open spec fn claim_outcome(
    bet: Bet,
    m: Match,
    platform: PlatformConfig,
    user: UserAccount,
    escrow_balance: u64,
    treasury_balance: u64,
) -> Result<(), ErrorCode> {
    if bet.match_id@ != m.match_id@ {
        Err(ErrorCode::InvalidGameData)
    } else if m.status != MatchStatus::Completed {
        Err(ErrorCode::GameNotStarted)
    } else if bet.status != BetStatus::Active {
        Err(ErrorCode::BetAlreadySettled)
    } else if user.owner != bet.bettor {
        Err(ErrorCode::Unauthorized)
    } else if bet.predicted_winner@ != m.winner@ {
        Err(ErrorCode::NotWinner)
    } else if bet.amount * platform.platform_fee > u64::MAX || spec_gross(bet.amount) > u64::MAX {
        Err(ErrorCode::NumericalOverflow)
    } else if escrow_balance < spec_gross(bet.amount) {
        Err(ErrorCode::InsufficientBalance)
    } else if user.token_balance + spec_net(bet.amount, platform.platform_fee) > u64::MAX
        || treasury_balance + spec_fee(bet.amount, platform.platform_fee) > u64::MAX
        || user.won_bets + 1 > u64::MAX {
        Err(ErrorCode::NumericalOverflow)
    } else {
        Ok(())
    }
}

/// Settles a winning claim: computes the split with checked arithmetic and
/// moves, from escrow, the net payout to the winner and the fee to the
/// treasury — both or neither; a failing transfer leaves the bet `Active`.
/// A claim on a losing prediction fails with `NotWinner` and is the one
/// mutating failure: the bet settles as lost with payout zero.
/// Returns the net amount paid out.
pub fn claim_winnings(
    bet: &mut Bet,
    m: &Match,
    platform: &PlatformConfig,
    user: &mut UserAccount,
    escrow_balance: &mut u64,
    treasury_balance: &mut u64,
) -> (r: Result<u64, ErrorCode>)
    requires
        platform.wf(),
    ensures
        r is Ok <==> claim_outcome(
            *old(bet),
            *m,
            *platform,
            *old(user),
            *old(escrow_balance),
            *old(treasury_balance),
        ) is Ok,
        match r {
            Ok(net) => {
                &&& net == spec_net(old(bet).amount, platform.platform_fee)
                &&& *final(bet) == (Bet {
                    status: BetStatus::Settled,
                    won: true,
                    payout: net,
                    ..*old(bet)
                })
                &&& *final(user) == (UserAccount {
                    token_balance: (old(user).token_balance + net) as u64,
                    active_bets: spec_dec(old(user).active_bets),
                    won_bets: (old(user).won_bets + 1) as u64,
                    ..*old(user)
                })
                &&& *final(escrow_balance) == *old(escrow_balance) - spec_gross(old(bet).amount)
                &&& *final(treasury_balance) == *old(treasury_balance) + spec_fee(
                    old(bet).amount,
                    platform.platform_fee,
                )
                &&& net + spec_fee(old(bet).amount, platform.platform_fee) == spec_gross(
                    old(bet).amount,
                )
                &&& *final(escrow_balance) + final(user).token_balance + *final(treasury_balance)
                    == *old(escrow_balance) + old(user).token_balance + *old(treasury_balance)
            },
            Err(e) => {
                &&& Err::<(), ErrorCode>(e) == claim_outcome(
                    *old(bet),
                    *m,
                    *platform,
                    *old(user),
                    *old(escrow_balance),
                    *old(treasury_balance),
                )
                &&& *final(escrow_balance) == *old(escrow_balance)
                &&& *final(treasury_balance) == *old(treasury_balance)
                &&& final(user).token_balance == old(user).token_balance
                &&& (e == ErrorCode::NotWinner ==> {
                    &&& *final(bet) == (Bet {
                        status: BetStatus::Settled,
                        won: false,
                        payout: 0,
                        ..*old(bet)
                    })
                    &&& *final(user) == (UserAccount {
                        active_bets: spec_dec(old(user).active_bets),
                        ..*old(user)
                    })
                })
                &&& (e != ErrorCode::NotWinner ==> *final(bet) == *old(bet) && *final(user) == *old(
                    user,
                ))
            },
        },
{
    if !(bet.match_id == m.match_id) {
        return Err(ErrorCode::InvalidGameData);
    }
    if m.status != MatchStatus::Completed {
        return Err(ErrorCode::GameNotStarted);
    }
    if bet.status != BetStatus::Active {
        return Err(ErrorCode::BetAlreadySettled);
    }
    if user.owner != bet.bettor {
        return Err(ErrorCode::Unauthorized);
    }
    if !(bet.predicted_winner == m.winner) {
        // A losing prediction still resolves the bet: it settles as lost,
        // with no payout, and can never be claimed again.
        bet.status = BetStatus::Settled;
        bet.won = false;
        bet.payout = 0;
        if user.active_bets > 0 {
            user.active_bets = user.active_bets - 1;
        }
        return Err(ErrorCode::NotWinner);
    }
    let payout = match compute_payout(bet.amount, platform.platform_fee) {
        Ok(p) => p,
        Err(e) => {
            return Err(e);
        },
    };
    if *escrow_balance < payout.gross {
        return Err(ErrorCode::InsufficientBalance);
    }
    // Both outgoing transfers and all bookkeeping are guarded before any
    // mutation: the claim applies fully or not at all.
    let new_balance = match checked_add_u64(user.token_balance, payout.net) {
        Ok(v) => v,
        Err(e) => {
            return Err(e);
        },
    };
    let new_treasury = match checked_add_u64(*treasury_balance, payout.fee) {
        Ok(v) => v,
        Err(e) => {
            return Err(e);
        },
    };
    let new_won = match checked_add_u64(user.won_bets, 1) {
        Ok(v) => v,
        Err(e) => {
            return Err(e);
        },
    };
    let new_escrow = match checked_sub_u64(*escrow_balance, payout.gross) {
        Ok(v) => v,
        Err(e) => {
            return Err(e);
        },
    };
    bet.status = BetStatus::Settled;
    bet.won = true;
    bet.payout = payout.net;
    user.token_balance = new_balance;
    user.won_bets = new_won;
    if user.active_bets > 0 {
        user.active_bets = user.active_bets - 1;
    }
    *escrow_balance = new_escrow;
    *treasury_balance = new_treasury;
    Ok(payout.net)
}

/// Law: a bet settles at most once. If a claim on `b0` succeeds, the bet
/// it leaves behind is `Settled` (per `claim_winnings`'s contract), and a
/// second claim on that settled bet — under any user account and any
/// balances — fails with `BetAlreadySettled` and changes nothing.
pub proof fn lemma_bet_settles_at_most_once(
    b0: Bet,
    m: Match,
    platform: PlatformConfig,
    u0: UserAccount,
    e0: u64,
    t0: u64,
    b1: Bet,
    u1: UserAccount,
    e1: u64,
    t1: u64,
)
    requires
        claim_outcome(b0, m, platform, u0, e0, t0) is Ok,
        b1.status == BetStatus::Settled,
        b1.match_id@ == b0.match_id@,
    ensures
        claim_outcome(b1, m, platform, u1, e1, t1) == Err::<(), ErrorCode>(
            ErrorCode::BetAlreadySettled,
        ),
{
}

} // verus!
