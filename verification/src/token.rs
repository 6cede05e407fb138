//! The platform token: mint description and granting.
//!
//! Minting credits a user's custody account with `amount` whole tokens,
//! scaled to base units by the mint's decimals — all through checked
//! arithmetic, so an unrepresentable grant trips a guard instead of
//! wrapping.

use vstd::prelude::*;
use vstd::arithmetic::power::pow;

use crate::errors::ErrorCode;
use crate::math::{checked_add_u64, checked_mul_u64};
use crate::records::UserAccount;

verus! {

/// The mint that backs the platform token: created once, with its
/// user-facing metadata and the scale between whole tokens and base units.
pub struct TokenMint {
    pub name: String,
    pub symbol: String,
    pub uri: String,
    /// Base-unit scale: one whole token is `10^decimals` base units.
    pub decimals: u8,
}

/// Creates the mint record that the platform token lives under.
pub fn create_token(name: String, symbol: String, uri: String, decimals: u8) -> (t: TokenMint)
    ensures
        t.name == name,
        t.symbol == symbol,
        t.uri == uri,
        t.decimals == decimals,
{
    TokenMint { name, symbol, uri, decimals }
}

/// `10^exp`, or a tripped guard where it does not fit in a balance.
pub fn pow10(exp: u8) -> (r: Result<u64, ErrorCode>)
    ensures
        r is Ok <==> pow(10, exp as nat) <= u64::MAX,
        match r {
            Ok(v) => v == pow(10, exp as nat),
            Err(e) => e == ErrorCode::NumericalOverflow,
        },
{
    let mut acc: u64 = 1;
    let mut i: u8 = 0;
    proof {
        vstd::arithmetic::power::lemma_pow0(10);
    }
    while i < exp
        invariant
            i <= exp,
            acc == pow(10, i as nat),
        decreases exp - i,
    {
        proof {
            vstd::arithmetic::power::lemma_pow_adds(10, i as nat, 1nat);
            vstd::arithmetic::power::lemma_pow1(10);
            assert(pow(10, (i + 1) as nat) == pow(10, i as nat) * 10);
        }
        acc = match acc.checked_mul(10) {
            Some(v) => v,
            None => {
                proof {
                    vstd::arithmetic::power::lemma_pow_increases(10, (i + 1) as nat, exp as nat);
                }
                return Err(ErrorCode::NumericalOverflow);
            },
        };
        i = i + 1;
    }
    Ok(acc)
}

/// How many base units a grant of `amount` whole tokens comes to.
pub open spec fn spec_grant_units(amount: u64, decimals: u8) -> int {
    amount * pow(10, decimals as nat)
}

/// Whether a grant succeeds; the only failure is a checked-arithmetic
/// guard, tripped when the scale, the scaled grant, or the credited
/// balance does not fit.
pub open spec fn mint_outcome(user: UserAccount, amount: u64, decimals: u8) -> Result<
    (),
    ErrorCode,
> {
    if pow(10, decimals as nat) > u64::MAX {
        Err(ErrorCode::NumericalOverflow)
    } else if spec_grant_units(amount, decimals) > u64::MAX {
        Err(ErrorCode::NumericalOverflow)
    } else if user.token_balance + spec_grant_units(amount, decimals) > u64::MAX {
        Err(ErrorCode::NumericalOverflow)
    } else {
        Ok(())
    }
}

/// Mints `amount` whole tokens of `mint` into `user`'s custody: the
/// balance grows by exactly `amount * 10^decimals` base units, or nothing
/// changes.
pub fn mint_token(user: &mut UserAccount, mint: &TokenMint, amount: u64) -> (r: Result<
    (),
    ErrorCode,
>)
    ensures
        r is Ok <==> mint_outcome(*old(user), amount, mint.decimals) is Ok,
        match r {
            Ok(_) => *final(user) == (UserAccount {
                token_balance: (old(user).token_balance + spec_grant_units(
                    amount,
                    mint.decimals,
                )) as u64,
                ..*old(user)
            }),
            Err(e) => e == ErrorCode::NumericalOverflow && *final(user) == *old(user),
        },
{
    let scale = match pow10(mint.decimals) {
        Ok(v) => v,
        Err(e) => {
            return Err(e);
        },
    };
    let units = match checked_mul_u64(amount, scale) {
        Ok(v) => v,
        Err(e) => {
            return Err(e);
        },
    };
    let new_balance = match checked_add_u64(user.token_balance, units) {
        Ok(v) => v,
        Err(e) => {
            return Err(e);
        },
    };
    user.token_balance = new_balance;
    Ok(())
}

} // verus!
