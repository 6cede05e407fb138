//! A ledger-resident wagering protocol.
//!
//! Parties register matches, place wagers against an escrow, and receive
//! payouts once an outcome is recorded, with a platform fee skimmed on
//! settlement. The core is made of:
//!
//! - a strict lifecycle state machine for matches (`Pending -> Completed`)
//!   and bets (`Active -> Settled`), which never allows a payout before an
//!   outcome is finalized nor a double settlement;
//! - overflow-safe escrow accounting that splits a payout atomically
//!   between the winner and the platform treasury, creating and destroying
//!   no value;
//! - a delegation protocol that temporarily hands exclusive mutation
//!   authority over a record to a secondary execution context and later
//!   reconciles that context's state back into the authoritative ledger.
//!
//! Token custody transfer mechanics and oracle data acquisition are external
//! collaborators: the core consumes their results as plain values through
//! narrow interfaces and decides everything else itself.

pub mod errors;
pub mod math;
pub mod records;
pub mod settlement;
pub mod lifecycle;
pub mod delegation;
pub mod token;
pub mod ledger;
