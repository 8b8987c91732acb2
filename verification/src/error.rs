//! The error taxonomy. Every failure aborts the whole request; callers see
//! the variant verbatim and no state is changed.

use vstd::prelude::*;

verus! {

/// Why a request was refused.
#[derive(Clone, Copy, Debug, PartialEq, Eq, Structural)]
pub enum ReputationError {
    /// The caller did not produce a valid signature.
    Unauthenticated,
    /// The caller signed, but is not the identity this record belongs to.
    Unauthorized,
    /// A record already exists for this owner.
    AlreadyExists,
    /// The signed addition overflowed before the clamp.
    Overflow,
    /// The issuance collaborator refused or failed the mint.
    IssuanceFailed,
}

} // verus!
