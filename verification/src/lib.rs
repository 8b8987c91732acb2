//! A per-user reputation record with ownership-gated state transitions.
//!
//! The crate models three cooperating components: an identity registry that
//! creates exactly one reputation record per owning identity, a reputation
//! ledger that applies signed deltas with a clamp-to-zero floor, and a
//! delegated issuance authority that derives a keyless program identity and
//! authorizes a one-unit credential mint to a record's owner.

pub mod account;
pub mod authority;
pub mod error;
pub mod identity;
pub mod issuance;
pub mod ledger;
pub mod registry;
