//! A crowdfunding escrow, verified.
//!
//! Creators register funding campaigns with a goal and a deadline;
//! contributors deposit value into a per-campaign vault; on success the
//! creator may withdraw the pooled value, on failure each contributor may
//! reclaim exactly their own cumulative deposit; creators may declare up to
//! ten informational milestones that unlock once cumulative funding crosses
//! a threshold.
//!
//! The library is the lifecycle state machine together with its custody and
//! accounting invariants: when funds may move, who may authorize each
//! movement, and how per-contributor and per-campaign balances stay exactly
//! consistent under overflow-checked bookkeeping. The surrounding platform —
//! the ledger that applies each operation atomically, the deterministic
//! addressing that locates records, the token-transfer primitive, signature
//! verification, and the clock — are collaborators: records are located here
//! by a keyed lookup, identities are compared for equality only, the current
//! time is an argument, and outbound vault transfers are handed back as
//! [`state::VaultPayout`] orders that only the two sanctioned operations can
//! construct.

pub mod accounting;
pub mod errors;
pub mod laws;
pub mod platform;
pub mod state;
