use betting::delegation::{
    commit_and_undelegate, delegate, primary_increment, rollup_step, DelegableRecord,
};
use betting::errors::ErrorCode;
use betting::ledger::Ledger;
use betting::records::{BetStatus, DelegationState, MatchStatus};

fn fresh_ledger(fee_bps: u64) -> Ledger {
    Ledger::new(1, 2, fee_bps).expect("fee within bounds")
}

/// A platform with one match and two funded bettors staking on opposite
/// outcomes, ready to settle.
fn funded_two_sided_market(fee_bps: u64) -> Ledger {
    let mut l = fresh_ledger(fee_bps);
    l.create_token(
        String::from("Platform Token"),
        String::from("PLT"),
        String::from("https://example.invalid/token"),
        0,
    )
    .expect("first mint creation");
    l.mint_token(3, 1000).expect("grant fits");
    l.mint_token(4, 1000).expect("grant fits");
    l.create_match(
        String::from("A"),
        String::from("B"),
        String::from("A-vs-B"),
        1700000000,
        1,
    )
    .expect("fresh match id");
    let mid = String::from("A-vs-B");
    l.place_bet(3, &mid, 1000, String::from("A"), Some(2))
        .expect("valid bet");
    l.place_bet(4, &mid, 1000, String::from("B"), Some(2))
        .expect("valid bet");
    l
}

fn user_balance(l: &Ledger, owner: u64) -> u64 {
    match l.find_user(owner) {
        Some(i) => l.users[i].token_balance,
        None => 0,
    }
}

fn total_value(l: &Ledger) -> u64 {
    let users: u64 = l.users.iter().map(|u| u.token_balance).sum();
    users + l.escrow_balance + l.treasury_balance
}

#[test]
fn end_to_end_fee_split() {
    // fee = 150 basis points (1.5%), stake = 1000:
    // gross = 2000, fee = 15, net = 1985.
    let mut l = funded_two_sided_market(150);
    assert_eq!(l.escrow_balance, 2000);
    assert_eq!(user_balance(&l, 3), 0);
    assert_eq!(user_balance(&l, 4), 0);
    let before = total_value(&l);

    let mid = String::from("A-vs-B");
    l.settle_match(&mid, 1, String::from("A")).expect("pending match");
    let net = l.claim_winnings(3, &mid).expect("winning claim");
    assert_eq!(net, 1985);
    assert_eq!(user_balance(&l, 3), 1985);
    assert_eq!(l.treasury_balance, 15);
    assert_eq!(l.escrow_balance, 0);
    assert_eq!(total_value(&l), before);
}

#[test]
fn losing_claim_settles_bet_with_zero_payout() {
    // The bet predicts "A"; the recorded winner is "B": the claim fails
    // with NotWinner and the bet still settles, as lost, with payout 0.
    let mut l = funded_two_sided_market(150);
    let mid = String::from("A-vs-B");
    l.settle_match(&mid, 1, String::from("B")).expect("pending match");
    let before = total_value(&l);
    let r = l.claim_winnings(3, &mid);
    assert!(matches!(r, Err(ErrorCode::NotWinner)));
    let bi = l.find_bet(3, &mid).expect("bet record still exists");
    assert_eq!(l.bets[bi].status, BetStatus::Settled);
    assert!(!l.bets[bi].won);
    assert_eq!(l.bets[bi].payout, 0);
    assert_eq!(total_value(&l), before);
    // Settled as lost is final: a retry cannot pay out either.
    let r2 = l.claim_winnings(3, &mid);
    assert!(matches!(r2, Err(ErrorCode::BetAlreadySettled)));
}

#[test]
fn zero_amount_bet_rejected_and_creates_no_record() {
    let mut l = fresh_ledger(150);
    l.create_token(String::from("T"), String::from("T"), String::from("u"), 0)
        .expect("first mint creation");
    l.mint_token(3, 1000).expect("grant fits");
    l.create_match(
        String::from("A"),
        String::from("B"),
        String::from("A-vs-B"),
        1700000000,
        1,
    )
    .expect("fresh match id");
    let mid = String::from("A-vs-B");
    let before_bets = l.bets.len();
    let before_balance = user_balance(&l, 3);
    let r = l.place_bet(3, &mid, 0, String::from("A"), Some(2));
    assert!(matches!(r, Err(ErrorCode::InvalidBetAmount)));
    assert_eq!(l.bets.len(), before_bets);
    assert_eq!(user_balance(&l, 3), before_balance);
    assert_eq!(l.escrow_balance, 0);
}

#[test]
fn claim_twice_succeeds_then_bet_already_settled() {
    let mut l = funded_two_sided_market(150);
    let mid = String::from("A-vs-B");
    l.settle_match(&mid, 1, String::from("A")).expect("pending match");
    let first = l.claim_winnings(3, &mid);
    assert_eq!(first, Ok(1985));
    let balance_after_first = user_balance(&l, 3);
    let second = l.claim_winnings(3, &mid);
    assert!(matches!(second, Err(ErrorCode::BetAlreadySettled)));
    assert_eq!(user_balance(&l, 3), balance_after_first);
    let bi = l.find_bet(3, &mid).expect("bet record still exists");
    assert_eq!(l.bets[bi].payout, 1985);
}

#[test]
fn settle_twice_fails_and_keeps_winner() {
    let mut l = funded_two_sided_market(150);
    let mid = String::from("A-vs-B");
    l.settle_match(&mid, 1, String::from("A")).expect("pending match");
    let r = l.settle_match(&mid, 1, String::from("B"));
    assert!(matches!(r, Err(ErrorCode::GameAlreadySettled)));
    let mi = l.find_match(&mid).expect("match record still exists");
    assert_eq!(l.matches[mi].status, MatchStatus::Completed);
    assert_eq!(l.matches[mi].winner, String::from("A"));
}

#[test]
fn settle_requires_platform_authority() {
    let mut l = funded_two_sided_market(150);
    let mid = String::from("A-vs-B");
    let r = l.settle_match(&mid, 999, String::from("A"));
    assert!(matches!(r, Err(ErrorCode::Unauthorized)));
    let mi = l.find_match(&mid).expect("match record still exists");
    assert_eq!(l.matches[mi].status, MatchStatus::Pending);
}

#[test]
fn bet_after_settlement_rejected() {
    let mut l = funded_two_sided_market(150);
    let mid = String::from("A-vs-B");
    l.settle_match(&mid, 1, String::from("A")).expect("pending match");
    l.mint_token(5, 100).expect("grant fits");
    let r = l.place_bet(5, &mid, 100, String::from("A"), Some(2));
    assert!(matches!(r, Err(ErrorCode::GameAlreadyStarted)));
}

#[test]
fn claim_before_settlement_rejected() {
    let mut l = funded_two_sided_market(150);
    let mid = String::from("A-vs-B");
    let r = l.claim_winnings(3, &mid);
    assert!(matches!(r, Err(ErrorCode::GameNotStarted)));
    let bi = l.find_bet(3, &mid).expect("bet record still exists");
    assert_eq!(l.bets[bi].status, BetStatus::Active);
}

#[test]
fn insufficient_balance_rejected() {
    let mut l = funded_two_sided_market(150);
    let mid = String::from("A-vs-B");
    l.mint_token(5, 10).expect("grant fits");
    let r = l.place_bet(5, &mid, 11, String::from("A"), Some(2));
    assert!(matches!(r, Err(ErrorCode::InsufficientBalance)));
    assert_eq!(user_balance(&l, 5), 10);
}

#[test]
fn missing_oracle_answer_rejects_bet() {
    let mut l = funded_two_sided_market(150);
    let mid = String::from("A-vs-B");
    l.mint_token(5, 100).expect("grant fits");
    let before_bets = l.bets.len();
    let r = l.place_bet(5, &mid, 50, String::from("A"), None);
    assert!(matches!(r, Err(ErrorCode::OracleVerificationFailed)));
    assert_eq!(l.bets.len(), before_bets);
}

#[test]
fn duplicate_match_rejected() {
    let mut l = fresh_ledger(150);
    l.create_match(
        String::from("A"),
        String::from("B"),
        String::from("A-vs-B"),
        1700000000,
        1,
    )
    .expect("fresh match id");
    let r = l.create_match(
        String::from("C"),
        String::from("D"),
        String::from("A-vs-B"),
        1800000000,
        1,
    );
    assert!(matches!(r, Err(ErrorCode::DuplicateMatch)));
    assert_eq!(l.matches.len(), 1);
    let mi = l.find_match(&String::from("A-vs-B")).expect("first record kept");
    assert_eq!(l.matches[mi].team_a, String::from("A"));
}

#[test]
fn duplicate_bet_rejected() {
    let mut l = funded_two_sided_market(150);
    let mid = String::from("A-vs-B");
    l.mint_token(3, 1000).expect("grant fits");
    let r = l.place_bet(3, &mid, 100, String::from("A"), Some(2));
    assert!(matches!(r, Err(ErrorCode::InvalidGameData)));
    assert_eq!(l.bets.len(), 2);
}

#[test]
fn unknown_match_and_unknown_bet_rejected() {
    let mut l = fresh_ledger(150);
    let mid = String::from("nowhere");
    let r = l.place_bet(3, &mid, 100, String::from("A"), Some(2));
    assert!(matches!(r, Err(ErrorCode::InvalidGameData)));
    let r = l.claim_winnings(3, &mid);
    assert!(matches!(r, Err(ErrorCode::InvalidGameData)));
    let r = l.settle_match(&mid, 1, String::from("A"));
    assert!(matches!(r, Err(ErrorCode::InvalidGameData)));
}

#[test]
fn out_of_bounds_platform_fee_rejected() {
    let r = Ledger::new(1, 2, 10001);
    assert!(matches!(r, Err(ErrorCode::InvalidPlatformFee)));
    assert!(Ledger::new(1, 2, 10000).is_ok());
    assert!(Ledger::new(1, 2, 0).is_ok());
}

#[test]
fn full_fee_pays_winner_the_stake() {
    // At the maximum fee (100%), the fee equals the stake and the winner
    // still nets the stake back: fee + net == 2 * amount.
    let mut l = funded_two_sided_market(10000);
    let mid = String::from("A-vs-B");
    l.settle_match(&mid, 1, String::from("A")).expect("pending match");
    let net = l.claim_winnings(3, &mid).expect("winning claim");
    assert_eq!(net, 1000);
    assert_eq!(l.treasury_balance, 1000);
}

#[test]
fn zero_fee_pays_double() {
    let mut l = funded_two_sided_market(0);
    let mid = String::from("A-vs-B");
    l.settle_match(&mid, 1, String::from("A")).expect("pending match");
    let net = l.claim_winnings(3, &mid).expect("winning claim");
    assert_eq!(net, 2000);
    assert_eq!(l.treasury_balance, 0);
}

#[test]
fn escrow_shortfall_fails_claim_without_settling() {
    // Only one bettor staked 1000, so the escrow cannot cover the gross
    // payout of 2000: the claim fails and the bet stays Active.
    let mut l = fresh_ledger(150);
    l.create_token(String::from("T"), String::from("T"), String::from("u"), 0)
        .expect("first mint creation");
    l.mint_token(3, 1000).expect("grant fits");
    l.create_match(
        String::from("A"),
        String::from("B"),
        String::from("A-vs-B"),
        1700000000,
        1,
    )
    .expect("fresh match id");
    let mid = String::from("A-vs-B");
    l.place_bet(3, &mid, 1000, String::from("A"), Some(2)).expect("valid bet");
    l.settle_match(&mid, 1, String::from("A")).expect("pending match");
    let r = l.claim_winnings(3, &mid);
    assert!(matches!(r, Err(ErrorCode::InsufficientBalance)));
    let bi = l.find_bet(3, &mid).expect("bet record still exists");
    assert_eq!(l.bets[bi].status, BetStatus::Active);
    assert_eq!(l.escrow_balance, 1000);
}

#[test]
fn delegation_round_trip() {
    let mut r = DelegableRecord::new(7);
    assert_eq!(r.delegation, DelegationState::Owned);
    // Primary mutation works while owned.
    primary_increment(&mut r, 7).expect("owned record");
    assert_eq!(r.value, 1);
    // Delegation hands authority away; the primary path is refused.
    delegate(&mut r, 7).expect("owned record");
    assert_eq!(r.delegation, DelegationState::Delegated);
    let blocked = primary_increment(&mut r, 7);
    assert!(matches!(blocked, Err(ErrorCode::Unauthorized)));
    assert_eq!(r.value, 1);
    // The secondary context advances its own copy of the value.
    let rollup_value = rollup_step(rollup_step(r.value));
    assert_eq!(rollup_value, 3);
    // Commit reconciles the value and reverts authority.
    commit_and_undelegate(&mut r, rollup_value).expect("delegated record");
    assert_eq!(r.delegation, DelegationState::Owned);
    assert_eq!(r.value, 3);
    // A second commit never double-applies.
    let again = commit_and_undelegate(&mut r, 99);
    assert!(matches!(again, Err(ErrorCode::InvalidRollupData)));
    assert_eq!(r.value, 3);
}

#[test]
fn delegation_requires_owner() {
    let mut r = DelegableRecord::new(7);
    let res = delegate(&mut r, 8);
    assert!(matches!(res, Err(ErrorCode::Unauthorized)));
    assert_eq!(r.delegation, DelegationState::Owned);
    delegate(&mut r, 7).expect("owner may delegate");
    let res = delegate(&mut r, 7);
    assert!(matches!(res, Err(ErrorCode::InvalidRollupData)));
}

#[test]
fn commit_on_owned_record_rejected() {
    let mut r = DelegableRecord::new(7);
    let res = commit_and_undelegate(&mut r, 5);
    assert!(matches!(res, Err(ErrorCode::InvalidRollupData)));
    assert_eq!(r.value, 0);
}
