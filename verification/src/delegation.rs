//! The delegation/commit protocol.
//!
//! A record can be handed to a secondary, lower-latency execution context
//! for rapid mutation and later reconciled back into the authoritative
//! ledger. The invariant protected here is exclusivity: a record is never
//! mutable in two contexts at once. While a record is `Delegated`, the
//! primary path refuses every mutation with an authorization error;
//! committing reverts authority to the primary context, and a commit on a
//! record that is not delegated fails with `InvalidRollupData` and never
//! double-applies a value.

use vstd::prelude::*;

use crate::errors::ErrorCode;
use crate::records::DelegationState;

verus! {

/// Domain bound on the rollup counter: secondary-context updates wrap at
/// this ceiling instead of overflowing.
pub const ROLLUP_CEILING: u64 = 1000000;

/// A counter-like record whose exclusive-write authority can be handed to
/// a secondary execution context.
#[derive(Clone, Copy, PartialEq, Eq, Structural, Debug)]
pub struct DelegableRecord {
    /// The party allowed to delegate and to mutate through the primary
    /// path.
    pub owner: u64,
    /// Which context currently holds exclusive mutation authority.
    pub delegation: DelegationState,
    /// The counter value, always below [`ROLLUP_CEILING`].
    pub value: u64,
}

impl DelegableRecord {
    /// The domain invariant every context must respect.
    pub open spec fn wf(self) -> bool {
        self.value < ROLLUP_CEILING
    }

    /// A fresh record, owned by the primary context.
    pub fn new(owner: u64) -> (r: DelegableRecord)
        ensures
            r == (DelegableRecord { owner, delegation: DelegationState::Owned, value: 0 }),
            r.wf(),
    {
        DelegableRecord { owner, delegation: DelegationState::Owned, value: 0 }
    }
}

/// One bounded counter step: the update the secondary context applies,
/// wrapping at the ceiling rather than overflowing.
pub open spec fn spec_rollup_step(value: u64) -> u64 {
    if value + 1 >= ROLLUP_CEILING {
        0
    } else {
        (value + 1) as u64
    }
}

/// The secondary context's increment. It is confined to the delegated
/// record's value and bounded by the same domain invariant the primary
/// context enforces.
pub fn rollup_step(value: u64) -> (r: u64)
    ensures
        r == spec_rollup_step(value),
        r < ROLLUP_CEILING,
{
    if value >= ROLLUP_CEILING - 1 {
        0
    } else {
        value + 1
    }
}

/// Whether a delegation attempt succeeds, and with which error it
/// otherwise fails.
pub open spec fn delegate_outcome(r: DelegableRecord, acting_authority: u64) -> Result<
    (),
    ErrorCode,
> {
    if acting_authority != r.owner {
        Err(ErrorCode::Unauthorized)
    } else if r.delegation == DelegationState::Delegated {
        Err(ErrorCode::InvalidRollupData)
    } else {
        Ok(())
    }
}

/// Marks the record's authority as transferred to the secondary context.
/// Only the owner may delegate, and only a record the primary context
/// still owns. The record is not removed: exclusivity is enforced by the
/// authority tag that every mutating operation checks.
pub fn delegate(r: &mut DelegableRecord, acting_authority: u64) -> (res: Result<(), ErrorCode>)
    ensures
        res is Ok <==> delegate_outcome(*old(r), acting_authority) is Ok,
        match res {
            Ok(_) => *final(r) == (DelegableRecord {
                delegation: DelegationState::Delegated,
                ..*old(r)
            }),
            Err(e) => Err::<(), ErrorCode>(e) == delegate_outcome(*old(r), acting_authority)
                && *final(r) == *old(r),
        },
{
    if acting_authority != r.owner {
        return Err(ErrorCode::Unauthorized);
    }
    if r.delegation == DelegationState::Delegated {
        return Err(ErrorCode::InvalidRollupData);
    }
    r.delegation = DelegationState::Delegated;
    Ok(())
}

/// Whether a primary-path mutation succeeds, and with which error it
/// otherwise fails. A delegated record refuses the primary path outright.
pub open spec fn primary_increment_outcome(r: DelegableRecord, acting_authority: u64) -> Result<
    (),
    ErrorCode,
> {
    if r.delegation == DelegationState::Delegated {
        Err(ErrorCode::Unauthorized)
    } else if acting_authority != r.owner {
        Err(ErrorCode::Unauthorized)
    } else {
        Ok(())
    }
}

/// The primary context's mutation of the record: one bounded counter step.
/// It is refused while the record is delegated, so the record is never
/// mutated in two contexts simultaneously.
pub fn primary_increment(r: &mut DelegableRecord, acting_authority: u64) -> (res: Result<
    (),
    ErrorCode,
>)
    ensures
        res is Ok <==> primary_increment_outcome(*old(r), acting_authority) is Ok,
        match res {
            Ok(_) => *final(r) == (DelegableRecord {
                value: spec_rollup_step(old(r).value),
                ..*old(r)
            }) && final(r).wf(),
            Err(e) => Err::<(), ErrorCode>(e) == primary_increment_outcome(
                *old(r),
                acting_authority,
            ) && *final(r) == *old(r),
        },
{
    if r.delegation == DelegationState::Delegated {
        return Err(ErrorCode::Unauthorized);
    }
    if acting_authority != r.owner {
        return Err(ErrorCode::Unauthorized);
    }
    r.value = rollup_step(r.value);
    Ok(())
}

/// Whether a commit succeeds, and with which error it otherwise fails.
/// Only a currently delegated record can be committed, and only with a
/// value inside the domain bound.
pub open spec fn commit_outcome(r: DelegableRecord, committed_value: u64) -> Result<
    (),
    ErrorCode,
> {
    if r.delegation != DelegationState::Delegated {
        Err(ErrorCode::InvalidRollupData)
    } else if committed_value >= ROLLUP_CEILING {
        Err(ErrorCode::InvalidRollupData)
    } else {
        Ok(())
    }
}

/// Reconciles the secondary context's current value back into the
/// authoritative ledger and reverts authority to the primary context.
/// Repeating the call after a successful commit fails with
/// `InvalidRollupData` and never double-applies the committed value.
pub fn commit_and_undelegate(r: &mut DelegableRecord, committed_value: u64) -> (res: Result<
    (),
    ErrorCode,
>)
    ensures
        res is Ok <==> commit_outcome(*old(r), committed_value) is Ok,
        match res {
            Ok(_) => *final(r) == (DelegableRecord {
                delegation: DelegationState::Owned,
                value: committed_value,
                ..*old(r)
            }) && final(r).wf(),
            Err(e) => Err::<(), ErrorCode>(e) == commit_outcome(*old(r), committed_value)
                && *final(r) == *old(r),
        },
{
    if r.delegation != DelegationState::Delegated {
        return Err(ErrorCode::InvalidRollupData);
    }
    if committed_value >= ROLLUP_CEILING {
        return Err(ErrorCode::InvalidRollupData);
    }
    r.value = committed_value;
    r.delegation = DelegationState::Owned;
    Ok(())
}

/// Law: delegation excludes the primary path. While a record is delegated,
/// every primary mutation attempt fails with an authorization error — and
/// by `primary_increment`'s contract the failing call changes nothing.
pub proof fn lemma_delegated_record_refuses_primary_mutation(
    r: DelegableRecord,
    acting_authority: u64,
)
    requires
        r.delegation == DelegationState::Delegated,
    ensures
        primary_increment_outcome(r, acting_authority) == Err::<(), ErrorCode>(
            ErrorCode::Unauthorized,
        ),
{
}

/// Law: a commit reconciles exactly once. If a commit of `committed_value`
/// succeeds, the record it leaves behind is owned by the primary context
/// and holds that value, so a second commit — with any value — fails with
/// `InvalidRollupData` and, by `commit_and_undelegate`'s contract, leaves
/// the value from the first commit unchanged.
pub proof fn lemma_second_commit_rejected(
    r0: DelegableRecord,
    committed_value: u64,
    r1: DelegableRecord,
    second_value: u64,
)
    requires
        commit_outcome(r0, committed_value) is Ok,
        r1 == (DelegableRecord {
            delegation: DelegationState::Owned,
            value: committed_value,
            ..r0
        }),
    ensures
        commit_outcome(r1, second_value) == Err::<(), ErrorCode>(ErrorCode::InvalidRollupData),
        r1.value == committed_value,
{
}

} // verus!
