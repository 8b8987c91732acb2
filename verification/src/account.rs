//! The sole persistent entity: a reputation record bound to one owner.

use vstd::prelude::*;
use crate::identity::Identity;

verus! {

/// A per-user reputation record.
///
/// `owner` is write-once: no operation transfers ownership. `reputation`
/// starts at zero and is kept non-negative by the clamp in the ledger.
#[verifier::ext_equal]
pub struct UserAccount {
    pub owner: Identity,
    pub user_name: String,
    pub reputation: u64,
}

} // verus!
