//! The authoritative ledger: a keyed account store around the lifecycle
//! engine.
//!
//! Records live in arenas, one per record kind, and a record's address is
//! derived deterministically from its identifying seeds — matches by
//! `match_id`, bets by `(bettor, match_id)`, user accounts by `owner` — so
//! any caller can recompute where a record lives without a side index.
//! The store itself has no business logic: each instruction locates the
//! records it touches, hands them to the lifecycle engine, and persists
//! the result. A failing instruction leaves the whole ledger exactly as it
//! found it (with the lifecycle engine's single documented exception: a
//! losing claim settles the bet as lost).

use vstd::prelude::*;

use crate::errors::ErrorCode;
use crate::lifecycle;
use crate::lifecycle::{claim_outcome, place_bet_outcome, settle_outcome, spec_dec};
use crate::records::{Bet, BetStatus, Match, MatchStatus, PlatformConfig, UserAccount};
use crate::settlement::{spec_fee, spec_gross, spec_net, MAX_FEE_BPS};
use crate::token;
use crate::token::{mint_outcome, spec_grant_units, TokenMint};

verus! {

/// Whether some match record carries this identity.
pub open spec fn seq_has_match(ms: Seq<Match>, match_id: Seq<char>) -> bool {
    exists|i: int| 0 <= i < ms.len() && (#[trigger] ms[i]).match_id@ == match_id
}

/// The arena index a match identity derives to (meaningful when
/// `seq_has_match` holds; unique under the store invariant).
pub open spec fn match_index(ms: Seq<Match>, match_id: Seq<char>) -> int {
    choose|i: int| 0 <= i < ms.len() && (#[trigger] ms[i]).match_id@ == match_id
}

/// Whether some bet record carries these seeds.
pub open spec fn seq_has_bet(bs: Seq<Bet>, bettor: u64, match_id: Seq<char>) -> bool {
    exists|i: int|
        0 <= i < bs.len() && (#[trigger] bs[i]).bettor == bettor && bs[i].match_id@ == match_id
}

/// The arena index a bet's seeds derive to.
pub open spec fn bet_index(bs: Seq<Bet>, bettor: u64, match_id: Seq<char>) -> int {
    choose|i: int|
        0 <= i < bs.len() && (#[trigger] bs[i]).bettor == bettor && bs[i].match_id@ == match_id
}

/// Whether some user account carries this owner.
pub open spec fn seq_has_user(us: Seq<UserAccount>, owner: u64) -> bool {
    exists|i: int| 0 <= i < us.len() && (#[trigger] us[i]).owner == owner
}

/// The arena index a user identity derives to.
pub open spec fn user_index(us: Seq<UserAccount>, owner: u64) -> int {
    choose|i: int| 0 <= i < us.len() && (#[trigger] us[i]).owner == owner
}

/// The account a ledger operation acts for: the stored record where one
/// exists, a fresh (lazily created, not yet persisted) one otherwise.
pub open spec fn user_or_fresh(us: Seq<UserAccount>, owner: u64) -> UserAccount {
    if seq_has_user(us, owner) {
        us[user_index(us, owner)]
    } else {
        UserAccount { owner, token_balance: 0, active_bets: 0, total_bets: 0, won_bets: 0 }
    }
}

/// Two ledgers that hold the same state, record for record and balance
/// for balance.
pub open spec fn same_state(a: Ledger, b: Ledger) -> bool {
    &&& a.platform == b.platform
    &&& a.matches@ == b.matches@
    &&& a.bets@ == b.bets@
    &&& a.users@ == b.users@
    &&& a.escrow_balance == b.escrow_balance
    &&& a.treasury_balance == b.treasury_balance
    &&& a.token_mint == b.token_mint
}

/// Replacing a match record with one of the same identity keeps every
/// derived match address resolvable.
proof fn lemma_update_same_id_preserves_has_match(ms: Seq<Match>, i: int, m: Match, id: Seq<char>)
    requires
        0 <= i < ms.len(),
        m.match_id@ == ms[i].match_id@,
        seq_has_match(ms, id),
    ensures
        seq_has_match(ms.update(i, m), id),
{
    let w = choose|k: int| 0 <= k < ms.len() && (#[trigger] ms[k]).match_id@ == id;
    if w == i {
        assert(ms.update(i, m)[i].match_id@ == id);
    } else {
        assert(ms.update(i, m)[w].match_id@ == id);
    }
}

/// Replacing a user record with one of the same owner keeps every derived
/// user address resolvable.
proof fn lemma_update_same_owner_preserves_has_user(
    us: Seq<UserAccount>,
    i: int,
    u: UserAccount,
    owner: u64,
)
    requires
        0 <= i < us.len(),
        u.owner == us[i].owner,
        seq_has_user(us, owner),
    ensures
        seq_has_user(us.update(i, u), owner),
{
    let w = choose|k: int| 0 <= k < us.len() && (#[trigger] us[k]).owner == owner;
    if w == i {
        assert(us.update(i, u)[i].owner == owner);
    } else {
        assert(us.update(i, u)[w].owner == owner);
    }
}

/// The whole deployment's durable state: the singleton configuration, one
/// arena per record kind, and the two program-owned custody balances.
pub struct Ledger {
    pub platform: PlatformConfig,
    pub matches: Vec<Match>,
    pub bets: Vec<Bet>,
    pub users: Vec<UserAccount>,
    /// The program-owned escrow pool all stakes sit in until claimed.
    pub escrow_balance: u64,
    /// The platform treasury's custody balance, fed by settlement fees.
    pub treasury_balance: u64,
    /// The platform token's mint, once created.
    pub token_mint: Option<TokenMint>,
}

impl Ledger {
    /// The store invariant: the configuration is well formed, derived
    /// addresses are unique within each arena, every record is well
    /// formed, and every bet references an existing match and an existing
    /// user account.
    pub open spec fn wf(self) -> bool {
        &&& self.platform.wf()
        &&& forall|i: int, j: int|
            0 <= i < j < self.matches@.len() ==> (#[trigger] self.matches@[i]).match_id@ != (
            #[trigger] self.matches@[j]).match_id@
        &&& forall|i: int| 0 <= i < self.matches@.len() ==> (#[trigger] self.matches@[i]).wf()
        &&& forall|i: int, j: int|
            0 <= i < j < self.bets@.len() ==> !((#[trigger] self.bets@[i]).bettor == (
            #[trigger] self.bets@[j]).bettor && self.bets@[i].match_id@ == self.bets@[j].match_id@)
        &&& forall|i: int| 0 <= i < self.bets@.len() ==> (#[trigger] self.bets@[i]).wf()
        &&& forall|i: int|
            0 <= i < self.bets@.len() ==> seq_has_match(
                self.matches@,
                (#[trigger] self.bets@[i]).match_id@,
            ) && seq_has_user(self.users@, self.bets@[i].bettor)
        &&& forall|i: int, j: int|
            0 <= i < j < self.users@.len() ==> (#[trigger] self.users@[i]).owner != (
            #[trigger] self.users@[j]).owner
    }

    /// Creates a deployment: initializes the platform configuration and
    /// empty arenas. Fails with `InvalidPlatformFee` exactly when the fee
    /// is out of bounds.
    pub fn new(authority: u64, treasury: u64, platform_fee: u64) -> (r: Result<Ledger, ErrorCode>)
        ensures
            r is Ok <==> platform_fee <= MAX_FEE_BPS,
            match r {
                Ok(l) => {
                    &&& l.wf()
                    &&& l.platform == (PlatformConfig {
                        authority,
                        treasury,
                        platform_fee,
                        is_initialized: true,
                        total_bets: 0,
                        total_volume: 0,
                    })
                    &&& l.matches@.len() == 0
                    &&& l.bets@.len() == 0
                    &&& l.users@.len() == 0
                    &&& l.escrow_balance == 0
                    &&& l.treasury_balance == 0
                    &&& l.token_mint is None
                },
                Err(e) => e == ErrorCode::InvalidPlatformFee,
            },
    {
        let platform = match lifecycle::initialize(authority, treasury, platform_fee) {
            Ok(c) => c,
            Err(e) => {
                return Err(e);
            },
        };
        Ok(
            Ledger {
                platform,
                matches: Vec::new(),
                bets: Vec::new(),
                users: Vec::new(),
                escrow_balance: 0,
                treasury_balance: 0,
                token_mint: None,
            },
        )
    }

    /// Recomputes the arena index the given match identity derives to.
    pub fn find_match(&self, match_id: &String) -> (r: Option<usize>)
        ensures
            match r {
                Some(i) => i < self.matches@.len() && self.matches@[i as int].match_id@
                    == match_id@,
                None => !seq_has_match(self.matches@, match_id@),
            },
    {
        let n = self.matches.len();
        let mut k: usize = 0;
        while k < n
            invariant
                k <= n,
                n == self.matches@.len(),
                forall|j: int| 0 <= j < k ==> (#[trigger] self.matches@[j]).match_id@ != match_id@,
            decreases n - k,
        {
            if self.matches[k].match_id == *match_id {
                return Some(k);
            }
            k = k + 1;
        }
        None
    }

    /// Recomputes the arena index the given bet seeds derive to.
    pub fn find_bet(&self, bettor: u64, match_id: &String) -> (r: Option<usize>)
        ensures
            match r {
                Some(i) => i < self.bets@.len() && self.bets@[i as int].bettor == bettor
                    && self.bets@[i as int].match_id@ == match_id@,
                None => !seq_has_bet(self.bets@, bettor, match_id@),
            },
    {
        let n = self.bets.len();
        let mut k: usize = 0;
        while k < n
            invariant
                k <= n,
                n == self.bets@.len(),
                forall|j: int|
                    0 <= j < k ==> !((#[trigger] self.bets@[j]).bettor == bettor
                        && self.bets@[j].match_id@ == match_id@),
            decreases n - k,
        {
            if self.bets[k].bettor == bettor && self.bets[k].match_id == *match_id {
                return Some(k);
            }
            k = k + 1;
        }
        None
    }

    /// Recomputes the arena index the given owner identity derives to.
    pub fn find_user(&self, owner: u64) -> (r: Option<usize>)
        ensures
            match r {
                Some(i) => i < self.users@.len() && self.users@[i as int].owner == owner,
                None => !seq_has_user(self.users@, owner),
            },
    {
        let n = self.users.len();
        let mut k: usize = 0;
        while k < n
            invariant
                k <= n,
                n == self.users@.len(),
                forall|j: int| 0 <= j < k ==> (#[trigger] self.users@[j]).owner != owner,
            decreases n - k,
        {
            if self.users[k].owner == owner {
                return Some(k);
            }
            k = k + 1;
        }
        None
    }

    /// Registers a match. Fails with `DuplicateMatch` exactly when the
    /// derived address already holds a record, and then stores nothing;
    /// otherwise appends a `Pending` record with no winner.
    pub fn create_match(
        &mut self,
        team_a: String,
        team_b: String,
        match_id: String,
        start_time: i64,
        authority: u64,
    ) -> (r: Result<(), ErrorCode>)
        requires
            old(self).wf(),
        ensures
            final(self).wf(),
            r is Ok <==> !seq_has_match(old(self).matches@, match_id@),
            match r {
                Ok(_) => {
                    &&& final(self).matches@.len() == old(self).matches@.len() + 1
                    &&& forall|j: int|
                        0 <= j < old(self).matches@.len() ==> final(self).matches@[j] == old(
                            self,
                        ).matches@[j]
                    &&& final(self).matches@.last().match_id == match_id
                    &&& final(self).matches@.last().team_a == team_a
                    &&& final(self).matches@.last().team_b == team_b
                    &&& final(self).matches@.last().start_time == start_time
                    &&& final(self).matches@.last().authority == authority
                    &&& final(self).matches@.last().status == MatchStatus::Pending
                    &&& final(self).matches@.last().winner@ == Seq::<char>::empty()
                    &&& final(self).matches@.last().total_bets == 0
                    &&& seq_has_match(final(self).matches@, match_id@)
                    &&& final(self).bets == old(self).bets
                    &&& final(self).users == old(self).users
                    &&& final(self).platform == old(self).platform
                    &&& final(self).escrow_balance == old(self).escrow_balance
                    &&& final(self).treasury_balance == old(self).treasury_balance
                    &&& final(self).token_mint == old(self).token_mint
                },
                Err(e) => e == ErrorCode::DuplicateMatch && *final(self) == *old(self),
            },
    {
        match self.find_match(&match_id) {
            Some(_) => Err(ErrorCode::DuplicateMatch),
            None => {
                let m = lifecycle::create_match(team_a, team_b, match_id, start_time, authority);
                let ghost old_matches = self.matches@;
                self.matches.push(m);
                proof {
                    assert(self.matches@[old_matches.len() as int] == m);
                    assert forall|i: int|
                        0 <= i < old_matches.len() implies (
                    #[trigger] old_matches[i]).match_id@ != m.match_id@ by {
                        if old_matches[i].match_id@ == m.match_id@ {
                            assert(seq_has_match(old_matches, m.match_id@));
                        }
                    }
                    assert forall|i: int|
                        0 <= i < self.bets@.len() implies seq_has_match(
                        self.matches@,
                        (#[trigger] self.bets@[i]).match_id@,
                    ) by {
                        let w = match_index(old_matches, self.bets@[i].match_id@);
                        assert(self.matches@[w] == old_matches[w]);
                    }
                }
                Ok(())
            },
        }
    }

    /// Records a match outcome: resolves the derived address and hands the
    /// record to the lifecycle engine. Fails with `InvalidGameData` when no
    /// match carries this identity; otherwise succeeds, or fails and
    /// changes nothing, exactly as `settle_outcome` prescribes.
    pub fn settle_match(&mut self, match_id: &String, acting_authority: u64, winner: String) -> (r:
        Result<(), ErrorCode>)
        requires
            old(self).wf(),
        ensures
            final(self).wf(),
            !seq_has_match(old(self).matches@, match_id@) ==> r == Err::<(), ErrorCode>(
                ErrorCode::InvalidGameData,
            ) && same_state(*final(self), *old(self)),
            seq_has_match(old(self).matches@, match_id@) ==> ({
                let i = match_index(old(self).matches@, match_id@);
                let m0 = old(self).matches@[i];
                &&& (r is Ok <==> settle_outcome(m0, old(self).platform, acting_authority) is Ok)
                &&& (r matches Ok(_) ==> final(self).matches@ == old(self).matches@.update(
                    i,
                    (Match { status: MatchStatus::Completed, winner: winner, ..m0 }),
                ))
                &&& (r matches Err(e) ==> Err::<(), ErrorCode>(e) == settle_outcome(
                    m0,
                    old(self).platform,
                    acting_authority,
                ) && same_state(*final(self), *old(self)))
                &&& final(self).bets@ == old(self).bets@
                &&& final(self).users@ == old(self).users@
                &&& final(self).platform == old(self).platform
                &&& final(self).escrow_balance == old(self).escrow_balance
                &&& final(self).treasury_balance == old(self).treasury_balance
                &&& final(self).token_mint == old(self).token_mint
            }),
    {
        let i = match self.find_match(match_id) {
            Some(i) => i,
            None => {
                return Err(ErrorCode::InvalidGameData);
            },
        };
        let ghost old_matches = self.matches@;
        let ghost old_self = *self;
        let mut m = self.matches.remove(i);
        let r = lifecycle::settle_match(&mut m, &self.platform, acting_authority, winner);
        self.matches.insert(i, m);
        proof {
            assert(seq_has_match(old_matches, match_id@));
            let ci = match_index(old_matches, match_id@);
            assert(0 <= ci < old_matches.len() && old_matches[ci].match_id@ == match_id@);
            assert(ci == i as int) by {
                if ci != i as int {
                    assert(old_matches[ci].match_id@ != old_matches[i as int].match_id@);
                }
            }
            assert(self.matches@ =~= old_matches.update(i as int, m));
            if r is Err {
                assert(self.matches@ =~= old_matches);
            }
            assert forall|k: int|
                0 <= k < self.bets@.len() implies seq_has_match(
                self.matches@,
                (#[trigger] self.bets@[k]).match_id@,
            ) by {
                lemma_update_same_id_preserves_has_match(
                    old_matches,
                    i as int,
                    m,
                    self.bets@[k].match_id@,
                );
            }
        }
        match r {
            Ok(_) => Ok(()),
            Err(e) => Err(e),
        }
    }

    /// Places a wager for `bettor` against the match at the derived
    /// address. Fails with `InvalidGameData` when no match carries this
    /// identity or when the derived bet address already holds a record;
    /// otherwise the lifecycle engine decides, acting on the bettor's
    /// stored account (or, for a first interaction, a fresh empty one,
    /// which is persisted only if the placement succeeds — a failing
    /// instruction stores nothing at all).
    pub fn place_bet(
        &mut self,
        bettor: u64,
        match_id: &String,
        amount: u64,
        predicted_winner: String,
        oracle_odds: Option<u64>,
    ) -> (r: Result<(), ErrorCode>)
        requires
            old(self).wf(),
        ensures
            final(self).wf(),
            !seq_has_match(old(self).matches@, match_id@) ==> r == Err::<(), ErrorCode>(
                ErrorCode::InvalidGameData,
            ) && same_state(*final(self), *old(self)),
            seq_has_match(old(self).matches@, match_id@) && seq_has_bet(
                old(self).bets@,
                bettor,
                match_id@,
            ) ==> r == Err::<(), ErrorCode>(ErrorCode::InvalidGameData) && same_state(
                *final(self),
                *old(self),
            ),
            seq_has_match(old(self).matches@, match_id@) && !seq_has_bet(
                old(self).bets@,
                bettor,
                match_id@,
            ) ==> ({
                let mi = match_index(old(self).matches@, match_id@);
                let m0 = old(self).matches@[mi];
                let u0 = user_or_fresh(old(self).users@, bettor);
                let oc = place_bet_outcome(
                    m0,
                    old(self).platform,
                    u0,
                    old(self).escrow_balance,
                    amount,
                    oracle_odds,
                );
                &&& (r is Ok <==> oc is Ok)
                &&& (r matches Err(e) ==> Err::<(), ErrorCode>(e) == oc && same_state(
                    *final(self),
                    *old(self),
                ))
                &&& (r matches Ok(_) ==> {
                    &&& seq_has_user(old(self).users@, bettor)
                    &&& final(self).bets@.len() == old(self).bets@.len() + 1
                    &&& (forall|j: int|
                        0 <= j < old(self).bets@.len() ==> final(self).bets@[j] == old(
                            self,
                        ).bets@[j])
                    &&& final(self).bets@.last().bettor == bettor
                    &&& final(self).bets@.last().match_id@ == match_id@
                    &&& final(self).bets@.last().amount == amount
                    &&& final(self).bets@.last().predicted_winner == predicted_winner
                    &&& oracle_odds == Some(final(self).bets@.last().odds)
                    &&& final(self).bets@.last().status == BetStatus::Active
                    &&& final(self).matches@ == old(self).matches@.update(
                        mi,
                        (Match { total_bets: (m0.total_bets + 1) as u64, ..m0 }),
                    )
                    &&& final(self).users@ == old(self).users@.update(
                        user_index(old(self).users@, bettor),
                        (UserAccount {
                            token_balance: (u0.token_balance - amount) as u64,
                            active_bets: (u0.active_bets + 1) as u64,
                            total_bets: (u0.total_bets + 1) as u64,
                            ..u0
                        }),
                    )
                    &&& final(self).platform == (PlatformConfig {
                        total_bets: (old(self).platform.total_bets + 1) as u64,
                        total_volume: (old(self).platform.total_volume + amount) as u64,
                        ..old(self).platform
                    })
                    &&& final(self).escrow_balance == old(self).escrow_balance + amount
                    &&& final(self).treasury_balance == old(self).treasury_balance
                    &&& final(self).token_mint == old(self).token_mint
                    &&& final(self).escrow_balance + user_or_fresh(
                        final(self).users@,
                        bettor,
                    ).token_balance == old(self).escrow_balance + u0.token_balance
                })
            }),
    {
        let mi = match self.find_match(match_id) {
            Some(i) => i,
            None => {
                return Err(ErrorCode::InvalidGameData);
            },
        };
        match self.find_bet(bettor, match_id) {
            Some(_) => {
                return Err(ErrorCode::InvalidGameData);
            },
            None => {},
        };
        let ghost old_matches = self.matches@;
        let ghost old_users = self.users@;
        let ghost old_bets = self.bets@;
        let mut m = self.matches.remove(mi);
        let found_user = self.find_user(bettor);
        let (mut u, ui_opt): (UserAccount, Option<usize>) = match found_user {
            Some(ui) => (self.users.remove(ui), Some(ui)),
            None => (UserAccount::new(bettor), None),
        };
        let mut escrow = self.escrow_balance;
        let r = lifecycle::place_bet(
            &mut m,
            &mut self.platform,
            &mut u,
            &mut escrow,
            amount,
            predicted_winner,
            oracle_odds,
        );
        self.matches.insert(mi, m);
        match ui_opt {
            Some(ui) => self.users.insert(ui, u),
            None => {},
        }
        self.escrow_balance = escrow;
        proof {
            let ci = match_index(old_matches, match_id@);
            assert(0 <= ci < old_matches.len() && old_matches[ci].match_id@ == match_id@);
            assert(ci == mi as int) by {
                if ci != mi as int {
                    assert(old_matches[ci].match_id@ != old_matches[mi as int].match_id@);
                }
            }
            assert(self.matches@ =~= old_matches.update(mi as int, m));
            if ui_opt is Some {
                let ui = ui_opt->0;
                let cu = user_index(old_users, bettor);
                assert(0 <= cu < old_users.len() && old_users[cu].owner == bettor);
                assert(cu == ui as int) by {
                    if cu != ui as int {
                        assert(old_users[cu].owner != old_users[ui as int].owner);
                    }
                }
                assert(self.users@ =~= old_users.update(ui as int, u));
                assert(user_or_fresh(old_users, bettor) == old_users[ui as int]);
            } else {
                assert(self.users@ =~= old_users);
                assert(!seq_has_user(old_users, bettor));
                // A first interaction starts from an empty balance, and an
                // empty balance cannot cover a positive stake, so the
                // placement cannot have succeeded.
                assert(r is Err);
            }
            if r is Err {
                assert(self.matches@ =~= old_matches);
                assert(self.users@ =~= old_users);
            }
            assert forall|k: int|
                0 <= k < self.bets@.len() implies seq_has_match(
                self.matches@,
                (#[trigger] self.bets@[k]).match_id@,
            ) && seq_has_user(self.users@, self.bets@[k].bettor) by {
                lemma_update_same_id_preserves_has_match(
                    old_matches,
                    mi as int,
                    m,
                    self.bets@[k].match_id@,
                );
                if ui_opt is Some {
                    lemma_update_same_owner_preserves_has_user(
                        old_users,
                        ui_opt->0 as int,
                        u,
                        self.bets@[k].bettor,
                    );
                }
            }
        }
        match r {
            Ok(bet) => {
                let ghost pre_push = *self;
                self.bets.push(bet);
                proof {
                    assert(self.bets@[old_bets.len() as int] == bet);
                    assert forall|k: int|
                        0 <= k < old_bets.len() implies !((#[trigger] old_bets[k]).bettor
                        == bet.bettor && old_bets[k].match_id@ == bet.match_id@) by {
                        if old_bets[k].bettor == bettor && old_bets[k].match_id@ == match_id@ {
                            assert(seq_has_bet(old_bets, bettor, match_id@));
                        }
                    }
                    assert forall|k: int|
                        0 <= k < self.bets@.len() implies seq_has_match(
                        self.matches@,
                        (#[trigger] self.bets@[k]).match_id@,
                    ) && seq_has_user(self.users@, self.bets@[k].bettor) by {
                        if k < old_bets.len() {
                            assert(self.bets@[k] == pre_push.bets@[k]);
                            assert(seq_has_match(pre_push.matches@, self.bets@[k].match_id@));
                            assert(seq_has_user(pre_push.users@, self.bets@[k].bettor));
                        } else {
                            assert(self.bets@[k] == bet);
                            assert(self.matches@[mi as int].match_id@ == bet.match_id@);
                            let ui = ui_opt->0;
                            assert(self.users@[ui as int].owner == bet.bettor);
                        }
                    }
                }
                Ok(())
            },
            Err(e) => Err(e),
        }
    }

    /// Claims the winnings of the bet at the derived address `(bettor,
    /// match_id)`. Fails with `InvalidGameData` when no such bet exists;
    /// otherwise the lifecycle engine decides over the bet, its match and
    /// the bettor's account (both resolvable, by the store invariant).
    /// On success the escrow pays the winner's account and the treasury;
    /// value is conserved across the three balances. A claim on a losing
    /// prediction fails with `NotWinner` and settles the bet as lost; any
    /// other failure changes nothing.
    pub fn claim_winnings(&mut self, bettor: u64, match_id: &String) -> (r: Result<u64, ErrorCode>)
        requires
            old(self).wf(),
        ensures
            final(self).wf(),
            !seq_has_bet(old(self).bets@, bettor, match_id@) ==> r == Err::<u64, ErrorCode>(
                ErrorCode::InvalidGameData,
            ) && same_state(*final(self), *old(self)),
            seq_has_bet(old(self).bets@, bettor, match_id@) ==> ({
                let bi = bet_index(old(self).bets@, bettor, match_id@);
                let b0 = old(self).bets@[bi];
                let mi = match_index(old(self).matches@, match_id@);
                let m0 = old(self).matches@[mi];
                let ui = user_index(old(self).users@, bettor);
                let u0 = old(self).users@[ui];
                let oc = claim_outcome(
                    b0,
                    m0,
                    old(self).platform,
                    u0,
                    old(self).escrow_balance,
                    old(self).treasury_balance,
                );
                &&& (r is Ok <==> oc is Ok)
                &&& (r matches Ok(net) ==> {
                    &&& net == spec_net(b0.amount, old(self).platform.platform_fee)
                    &&& final(self).bets@ == old(self).bets@.update(
                        bi,
                        (Bet { status: BetStatus::Settled, won: true, payout: net, ..b0 }),
                    )
                    &&& final(self).users@ == old(self).users@.update(
                        ui,
                        (UserAccount {
                            token_balance: (u0.token_balance + net) as u64,
                            active_bets: spec_dec(u0.active_bets),
                            won_bets: (u0.won_bets + 1) as u64,
                            ..u0
                        }),
                    )
                    &&& final(self).escrow_balance == old(self).escrow_balance - spec_gross(
                        b0.amount,
                    )
                    &&& final(self).treasury_balance == old(self).treasury_balance + spec_fee(
                        b0.amount,
                        old(self).platform.platform_fee,
                    )
                    &&& final(self).matches@ == old(self).matches@
                    &&& final(self).platform == old(self).platform
                    &&& final(self).token_mint == old(self).token_mint
                    &&& final(self).escrow_balance + final(self).users@[ui].token_balance
                        + final(self).treasury_balance == old(self).escrow_balance
                        + u0.token_balance + old(self).treasury_balance
                })
                &&& (r matches Err(e) ==> {
                    &&& Err::<(), ErrorCode>(e) == oc
                    &&& (e == ErrorCode::NotWinner ==> {
                        &&& final(self).bets@ == old(self).bets@.update(
                            bi,
                            (Bet { status: BetStatus::Settled, won: false, payout: 0, ..b0 }),
                        )
                        &&& final(self).users@ == old(self).users@.update(
                            ui,
                            (UserAccount { active_bets: spec_dec(u0.active_bets), ..u0 }),
                        )
                        &&& final(self).matches@ == old(self).matches@
                        &&& final(self).platform == old(self).platform
                        &&& final(self).escrow_balance == old(self).escrow_balance
                        &&& final(self).treasury_balance == old(self).treasury_balance
                        &&& final(self).token_mint == old(self).token_mint
                    })
                    &&& (e != ErrorCode::NotWinner ==> same_state(*final(self), *old(self)))
                })
            }),
    {
        let bi = match self.find_bet(bettor, match_id) {
            Some(i) => i,
            None => {
                return Err(ErrorCode::InvalidGameData);
            },
        };
        let mi = match self.find_match(match_id) {
            Some(i) => i,
            None => {
                // Unreachable: the store invariant says every bet's match
                // address resolves.
                proof {
                    assert(seq_has_match(self.matches@, self.bets@[bi as int].match_id@));
                }
                return Err(ErrorCode::InvalidGameData);
            },
        };
        let ui = match self.find_user(bettor) {
            Some(i) => i,
            None => {
                // Unreachable: the store invariant says every bet's owner
                // address resolves.
                proof {
                    assert(seq_has_user(self.users@, self.bets@[bi as int].bettor));
                }
                return Err(ErrorCode::InvalidGameData);
            },
        };
        let ghost old_bets = self.bets@;
        let ghost old_matches = self.matches@;
        let ghost old_users = self.users@;
        let mut b = self.bets.remove(bi);
        let m = self.matches.remove(mi);
        let mut u = self.users.remove(ui);
        let mut escrow = self.escrow_balance;
        let mut treasury = self.treasury_balance;
        let r = lifecycle::claim_winnings(
            &mut b,
            &m,
            &self.platform,
            &mut u,
            &mut escrow,
            &mut treasury,
        );
        self.bets.insert(bi, b);
        self.matches.insert(mi, m);
        self.users.insert(ui, u);
        self.escrow_balance = escrow;
        self.treasury_balance = treasury;
        proof {
            let cb = bet_index(old_bets, bettor, match_id@);
            assert(0 <= cb < old_bets.len() && old_bets[cb].bettor == bettor
                && old_bets[cb].match_id@ == match_id@);
            assert(cb == bi as int) by {
                if cb != bi as int {
                    assert(!(old_bets[cb].bettor == old_bets[bi as int].bettor
                        && old_bets[cb].match_id@ == old_bets[bi as int].match_id@));
                }
            }
            let cm = match_index(old_matches, match_id@);
            assert(0 <= cm < old_matches.len() && old_matches[cm].match_id@ == match_id@);
            assert(cm == mi as int) by {
                if cm != mi as int {
                    assert(old_matches[cm].match_id@ != old_matches[mi as int].match_id@);
                }
            }
            let cu = user_index(old_users, bettor);
            assert(0 <= cu < old_users.len() && old_users[cu].owner == bettor);
            assert(cu == ui as int) by {
                if cu != ui as int {
                    assert(old_users[cu].owner != old_users[ui as int].owner);
                }
            }
            assert(self.bets@ =~= old_bets.update(bi as int, b));
            assert(self.matches@ =~= old_matches);
            assert(self.users@ =~= old_users.update(ui as int, u));
            if r is Err && !(r matches Err(e) && e == ErrorCode::NotWinner) {
                assert(self.bets@ =~= old_bets);
                assert(self.users@ =~= old_users);
            }
            assert forall|k: int|
                0 <= k < self.bets@.len() implies seq_has_match(
                self.matches@,
                (#[trigger] self.bets@[k]).match_id@,
            ) && seq_has_user(self.users@, self.bets@[k].bettor) by {
                assert(old_bets[k].match_id@ == self.bets@[k].match_id@);
                assert(old_bets[k].bettor == self.bets@[k].bettor);
                lemma_update_same_owner_preserves_has_user(
                    old_users,
                    ui as int,
                    u,
                    self.bets@[k].bettor,
                );
            }
        }
        match r {
            Ok(net) => Ok(net),
            Err(e) => Err(e),
        }
    }

    /// Creates the platform token's mint, once. A second creation fails
    /// with `InvalidGameData`: the mint's derived address already holds a
    /// record.
    pub fn create_token(&mut self, name: String, symbol: String, uri: String, decimals: u8) -> (r:
        Result<(), ErrorCode>)
        requires
            old(self).wf(),
        ensures
            final(self).wf(),
            r is Ok <==> old(self).token_mint is None,
            match r {
                Ok(_) => {
                    &&& final(self).token_mint matches Some(t) && t.name == name && t.symbol
                        == symbol && t.uri == uri && t.decimals == decimals
                    &&& final(self).platform == old(self).platform
                    &&& final(self).matches@ == old(self).matches@
                    &&& final(self).bets@ == old(self).bets@
                    &&& final(self).users@ == old(self).users@
                    &&& final(self).escrow_balance == old(self).escrow_balance
                    &&& final(self).treasury_balance == old(self).treasury_balance
                },
                Err(e) => e == ErrorCode::InvalidGameData && same_state(*final(self), *old(self)),
            },
    {
        match &self.token_mint {
            Some(_) => Err(ErrorCode::InvalidGameData),
            None => {
                self.token_mint = Some(token::create_token(name, symbol, uri, decimals));
                Ok(())
            },
        }
    }

    /// Grants `amount` whole tokens of the platform mint to `owner`,
    /// creating the user account lazily on this first interaction. Fails
    /// with `InvalidGameData` when no mint exists yet; a tripped
    /// arithmetic guard stores nothing (in particular, no lazily created
    /// account).
    pub fn mint_token(&mut self, owner: u64, amount: u64) -> (r: Result<(), ErrorCode>)
        requires
            old(self).wf(),
        ensures
            final(self).wf(),
            old(self).token_mint is None ==> r == Err::<(), ErrorCode>(ErrorCode::InvalidGameData)
                && same_state(*final(self), *old(self)),
            old(self).token_mint matches Some(mint) ==> ({
                let u0 = user_or_fresh(old(self).users@, owner);
                let oc = mint_outcome(u0, amount, mint.decimals);
                &&& (r is Ok <==> oc is Ok)
                &&& (r matches Err(e) ==> Err::<(), ErrorCode>(e) == oc && same_state(
                    *final(self),
                    *old(self),
                ))
                &&& (r matches Ok(_) ==> {
                    &&& (seq_has_user(old(self).users@, owner) ==> final(self).users@ == old(
                        self,
                    ).users@.update(
                        user_index(old(self).users@, owner),
                        (UserAccount {
                            token_balance: (u0.token_balance + spec_grant_units(
                                amount,
                                mint.decimals,
                            )) as u64,
                            ..u0
                        }),
                    ))
                    &&& (!seq_has_user(old(self).users@, owner) ==> {
                        &&& final(self).users@.len() == old(self).users@.len() + 1
                        &&& (forall|j: int|
                            0 <= j < old(self).users@.len() ==> final(self).users@[j] == old(
                                self,
                            ).users@[j])
                        &&& final(self).users@.last() == (UserAccount {
                            token_balance: spec_grant_units(amount, mint.decimals) as u64,
                            ..u0
                        })
                    })
                    &&& final(self).platform == old(self).platform
                    &&& final(self).matches@ == old(self).matches@
                    &&& final(self).bets@ == old(self).bets@
                    &&& final(self).escrow_balance == old(self).escrow_balance
                    &&& final(self).treasury_balance == old(self).treasury_balance
                    &&& final(self).token_mint == old(self).token_mint
                })
            }),
    {
        let ghost old_users = self.users@;
        let found_user = self.find_user(owner);
        let (mut u, ui_opt): (UserAccount, Option<usize>) = match found_user {
            Some(ui) => (self.users.remove(ui), Some(ui)),
            None => (UserAccount::new(owner), None),
        };
        let r = match &self.token_mint {
            Some(mint) => token::mint_token(&mut u, mint, amount),
            None => Err(ErrorCode::InvalidGameData),
        };
        match (r, ui_opt) {
            (Ok(_), Some(ui)) => {
                self.users.insert(ui, u);
            },
            (Ok(_), None) => {
                self.users.push(u);
            },
            (Err(_), Some(ui)) => {
                self.users.insert(ui, u);
            },
            (Err(_), None) => {},
        }
        proof {
            if ui_opt is Some {
                let ui = ui_opt->0;
                let cu = user_index(old_users, owner);
                assert(0 <= cu < old_users.len() && old_users[cu].owner == owner);
                assert(cu == ui as int) by {
                    if cu != ui as int {
                        assert(old_users[cu].owner != old_users[ui as int].owner);
                    }
                }
                assert(self.users@ =~= old_users.update(ui as int, u));
                if r is Err {
                    assert(self.users@ =~= old_users);
                }
            } else {
                assert(!seq_has_user(old_users, owner));
                if r is Ok {
                    assert(self.users@[old_users.len() as int] == u);
                    assert forall|k: int|
                        0 <= k < old_users.len() implies (#[trigger] old_users[k]).owner
                        != owner by {
                        if old_users[k].owner == owner {
                            assert(seq_has_user(old_users, owner));
                        }
                    }
                } else {
                    assert(self.users@ =~= old_users);
                }
            }
            assert forall|k: int|
                0 <= k < self.bets@.len() implies seq_has_match(
                self.matches@,
                (#[trigger] self.bets@[k]).match_id@,
            ) && seq_has_user(self.users@, self.bets@[k].bettor) by {
                if ui_opt is Some {
                    lemma_update_same_owner_preserves_has_user(
                        old_users,
                        ui_opt->0 as int,
                        u,
                        self.bets@[k].bettor,
                    );
                } else {
                    if r is Ok {
                        let w = user_index(old_users, self.bets@[k].bettor);
                        assert(self.users@[w] == old_users[w]);
                    }
                }
            }
        }
        match r {
            Ok(_) => Ok(()),
            Err(e) => Err(e),
        }
    }
}

} // verus!
