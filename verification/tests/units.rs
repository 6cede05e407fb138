use betting::delegation::{rollup_step, ROLLUP_CEILING};
use betting::errors::ErrorCode;
use betting::ledger::Ledger;
use betting::lifecycle::initialize;
use betting::math::{checked_add_u64, checked_mul_u64, checked_sub_u64};
use betting::records::UserAccount;
use betting::settlement::compute_payout;
use betting::token::{create_token, mint_token, pow10};

#[test]
fn checked_arithmetic_is_exact() {
    assert_eq!(checked_add_u64(2, 3), Ok(5));
    assert_eq!(checked_add_u64(u64::MAX, 1), Err(ErrorCode::NumericalOverflow));
    assert_eq!(checked_sub_u64(5, 3), Ok(2));
    assert_eq!(checked_sub_u64(3, 5), Err(ErrorCode::NumericalOverflow));
    assert_eq!(checked_mul_u64(6, 7), Ok(42));
    assert_eq!(checked_mul_u64(u64::MAX, 2), Err(ErrorCode::NumericalOverflow));
}

#[test]
fn payout_split_is_exact() {
    // 150 basis points of 1000 is 15; even-money gross is 2000.
    let p = compute_payout(1000, 150).expect("fits");
    assert_eq!(p.gross, 2000);
    assert_eq!(p.fee, 15);
    assert_eq!(p.net, 1985);
    assert_eq!(p.fee + p.net, 2 * 1000);

    // Fees round down: 1 basis point of 999 is floor(0.0999) = 0.
    let p = compute_payout(999, 1).expect("fits");
    assert_eq!(p.fee, 0);
    assert_eq!(p.net, 1998);

    // The full 100% fee takes exactly the stake.
    let p = compute_payout(1000, 10000).expect("fits");
    assert_eq!(p.fee, 1000);
    assert_eq!(p.net, 1000);

    // A stake whose doubling cannot be represented trips the guard.
    let r = compute_payout(u64::MAX, 0);
    assert_eq!(r, Err(ErrorCode::NumericalOverflow));
}

#[test]
fn platform_fee_bound_enforced_at_configuration() {
    assert!(initialize(1, 2, 10000).is_ok());
    let r = initialize(1, 2, 10001);
    assert_eq!(r, Err(ErrorCode::InvalidPlatformFee));
    let c = initialize(1, 2, 150).expect("within bounds");
    assert_eq!(c.authority, 1);
    assert_eq!(c.treasury, 2);
    assert_eq!(c.platform_fee, 150);
    assert!(c.is_initialized);
    assert_eq!(c.total_bets, 0);
    assert_eq!(c.total_volume, 0);
}

#[test]
fn power_of_ten_scaling() {
    assert_eq!(pow10(0), Ok(1));
    assert_eq!(pow10(6), Ok(1000000));
    assert_eq!(pow10(19), Ok(10000000000000000000));
    assert_eq!(pow10(20), Err(ErrorCode::NumericalOverflow));
}

#[test]
fn mint_scales_whole_tokens_to_base_units() {
    let mint = create_token(
        String::from("Platform Token"),
        String::from("PLT"),
        String::from("https://example.invalid/token"),
        2,
    );
    let mut u = UserAccount::new(9);
    mint_token(&mut u, &mint, 5).expect("grant fits");
    assert_eq!(u.token_balance, 500);
    mint_token(&mut u, &mint, 5).expect("grant fits");
    assert_eq!(u.token_balance, 1000);
}

#[test]
fn mint_overflow_changes_nothing() {
    let mint = create_token(String::from("T"), String::from("T"), String::from("u"), 1);
    let mut u = UserAccount::new(9);
    let r = mint_token(&mut u, &mint, u64::MAX);
    assert_eq!(r, Err(ErrorCode::NumericalOverflow));
    assert_eq!(u.token_balance, 0);
}

#[test]
fn second_mint_creation_rejected() {
    let mut l = Ledger::new(1, 2, 150).expect("fee within bounds");
    assert!(matches!(l.mint_token(3, 1), Err(ErrorCode::InvalidGameData)));
    l.create_token(String::from("T"), String::from("T"), String::from("u"), 0)
        .expect("first mint creation");
    let r = l.create_token(String::from("S"), String::from("S"), String::from("v"), 0);
    assert!(matches!(r, Err(ErrorCode::InvalidGameData)));
}

#[test]
fn rollup_counter_wraps_at_ceiling() {
    assert_eq!(rollup_step(0), 1);
    assert_eq!(rollup_step(ROLLUP_CEILING - 1), 0);
    assert_eq!(rollup_step(ROLLUP_CEILING - 2), ROLLUP_CEILING - 1);
}
