//! Escrow and settlement arithmetic.
//!
//! A winning claim pays a fixed even-money gross of twice the stake, skims
//! a platform fee of `floor(amount * fee / FEE_DIVISOR)` basis points, and
//! hands the remainder to the winner. The split conserves value exactly:
//! `fee + net == gross`.

use vstd::prelude::*;
use vstd::arithmetic::div_mod::{lemma_div_by_multiple, lemma_div_is_ordered, lemma_div_pos_is_pos};
use vstd::arithmetic::mul::{lemma_mul_inequality, lemma_mul_nonnegative};

use crate::errors::ErrorCode;
use crate::math::checked_mul_u64;

verus! {

/// Fees are quoted in basis points; a fee of `FEE_DIVISOR` is 100% of the
/// stake.
pub const FEE_DIVISOR: u64 = 10000;

/// The largest fee a platform may be configured with (100% of the stake).
pub const MAX_FEE_BPS: u64 = 10000;

/// Fixed even-money payout model: a winning bet grosses twice its stake.
pub const PAYOUT_MULTIPLIER: u64 = 2;

/// The platform fee skimmed from a winning claim on a stake of `amount`.
pub open spec fn spec_fee(amount: u64, fee_bps: u64) -> int {
    (amount * fee_bps) / (FEE_DIVISOR as int)
}

/// The gross payout owed on a winning stake of `amount`.
pub open spec fn spec_gross(amount: u64) -> int {
    amount * PAYOUT_MULTIPLIER
}

/// What the winner actually receives: the gross payout minus the fee.
pub open spec fn spec_net(amount: u64, fee_bps: u64) -> int {
    spec_gross(amount) - spec_fee(amount, fee_bps)
}

/// The three legs of a settlement split, all denominated in the token's
/// base units.
#[derive(Clone, Copy, PartialEq, Eq, Structural, Debug)]
pub struct Payout {
    /// Twice the stake: what the escrow disburses in total.
    pub gross: u64,
    /// What the platform treasury receives.
    pub fee: u64,
    /// What the winner receives.
    pub net: u64,
}

/// A bounded fee never exceeds the stake itself.
pub proof fn lemma_fee_bounded(amount: u64, fee_bps: u64)
    requires
        fee_bps <= MAX_FEE_BPS,
    ensures
        0 <= spec_fee(amount, fee_bps) <= amount,
{
    lemma_mul_nonnegative(amount as int, fee_bps as int);
    lemma_div_pos_is_pos(amount * fee_bps, FEE_DIVISOR as int);
    lemma_mul_inequality(fee_bps as int, MAX_FEE_BPS as int, amount as int);
    assert(amount * fee_bps == fee_bps * amount) by (nonlinear_arith);
    assert(amount * MAX_FEE_BPS == MAX_FEE_BPS * amount) by (nonlinear_arith);
    lemma_div_is_ordered(amount * fee_bps, amount * (MAX_FEE_BPS as int), FEE_DIVISOR as int);
    lemma_div_by_multiple(amount as int, FEE_DIVISOR as int);
}

/// Law: for every fee within the configurable bound and every stake, the
/// settlement split conserves value. The fee and the net payout sum to
/// exactly twice the stake, and the net payout covers at least the stake
/// itself (so it is never negative).
pub proof fn lemma_payout_conserves_value(amount: u64, fee_bps: u64)
    requires
        fee_bps <= MAX_FEE_BPS,
    ensures
        spec_fee(amount, fee_bps) + spec_net(amount, fee_bps) == 2 * amount,
        amount <= spec_net(amount, fee_bps),
        0 <= spec_fee(amount, fee_bps) <= amount,
{
    lemma_fee_bounded(amount, fee_bps);
}

/// Computes the settlement split for a stake of `amount` under a platform
/// fee of `fee_bps` basis points, using checked arithmetic only.
pub fn compute_payout(amount: u64, fee_bps: u64) -> (r: Result<Payout, ErrorCode>)
    requires
        fee_bps <= MAX_FEE_BPS,
    ensures
        r is Ok <==> amount * fee_bps <= u64::MAX && spec_gross(amount) <= u64::MAX,
        match r {
            Ok(p) => {
                &&& p.fee == spec_fee(amount, fee_bps)
                &&& p.gross == spec_gross(amount)
                &&& p.net == spec_net(amount, fee_bps)
                &&& p.fee + p.net == p.gross
            },
            Err(e) => e == ErrorCode::NumericalOverflow,
        },
{
    let scaled = match checked_mul_u64(amount, fee_bps) {
        Ok(v) => v,
        Err(e) => {
            return Err(e);
        },
    };
    let gross = match checked_mul_u64(amount, PAYOUT_MULTIPLIER) {
        Ok(v) => v,
        Err(e) => {
            return Err(e);
        },
    };
    let fee = scaled / FEE_DIVISOR;
    proof {
        lemma_fee_bounded(amount, fee_bps);
    }
    let net = gross - fee;
    Ok(Payout { gross, fee, net })
}

} // verus!
