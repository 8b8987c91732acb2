//! The reputation ledger: owner-authorized signed-delta updates with a
//! saturating floor at zero.

use vstd::prelude::*;
use crate::account::UserAccount;
use crate::error::ReputationError;
use crate::identity::Identity;

verus! {

/// The signed addition `rep + delta` leaves the signed 64-bit range: either
/// the stored value itself no longer fits as a signed integer, or the sum
/// exceeds the signed maximum. The sum cannot fall below the signed minimum,
/// since `rep` is never negative.
pub open spec fn reputation_update_overflows(rep: u64, delta: i64) -> bool {
    rep > i64::MAX || rep + delta > i64::MAX
}

/// The updated value: `max(rep + delta, 0)`. Deltas that would drive the
/// value below zero pin it at exactly zero rather than erroring.
pub open spec fn clamped_reputation(rep: u64, delta: i64) -> u64 {
    if rep + delta <= 0 {
        0u64
    } else {
        (rep + delta) as u64
    }
}

/// Apply a signed delta to the record's reputation, clamped at zero.
///
/// Only the record's owner may update it; a non-owner is refused with
/// `Unauthorized` and the record is untouched. A signed-addition overflow is
/// refused with `Overflow`, again leaving the record untouched. No upper
/// bound is enforced on the value itself.
pub fn update_reputation(account: &mut UserAccount, caller: &Identity, delta: i64) -> (r: Result<
    (),
    ReputationError,
>)
    ensures
        final(account).owner == old(account).owner,
        final(account).user_name == old(account).user_name,
        *caller != old(account).owner ==> r == Err::<(), ReputationError>(
            ReputationError::Unauthorized,
        ) && *final(account) == *old(account),
        *caller == old(account).owner && reputation_update_overflows(
            old(account).reputation,
            delta,
        ) ==> r == Err::<(), ReputationError>(ReputationError::Overflow) && *final(account) == *old(
            account,
        ),
        *caller == old(account).owner && !reputation_update_overflows(
            old(account).reputation,
            delta,
        ) ==> r == Ok::<(), ReputationError>(()) && final(account).reputation
            == clamped_reputation(old(account).reputation, delta),
{
    if !caller.equals(&account.owner) {
        return Err(ReputationError::Unauthorized);
    }
    if account.reputation > i64::MAX as u64 {
        return Err(ReputationError::Overflow);
    }
    let current: i64 = account.reputation as i64;
    match current.checked_add(delta) {
        None => Err(ReputationError::Overflow),
        Some(next) => {
            account.reputation = if next < 0 {
                0
            } else {
                next as u64
            };
            Ok(())
        },
    }
}

} // verus!
