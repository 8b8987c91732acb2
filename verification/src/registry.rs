//! The identity registry: creates reputation records and keeps at most one
//! per owner.
//!
//! The host environment's deterministic storage addressing is modelled as an
//! explicit uniqueness constraint: the registry refuses to create a second
//! record for an owner that already has one.

use vstd::prelude::*;
use crate::account::UserAccount;
use crate::error::ReputationError;
use crate::identity::Identity;

verus! {

/// The store of reputation records, at most one per owner.
pub struct Registry {
    pub records: Vec<UserAccount>,
}

impl Registry {
    /// No two records share an owner.
    pub open spec fn well_formed(self) -> bool {
        forall|i: int, j: int|
            0 <= i < j < self.records@.len() ==> self.records@[i].owner != self.records@[j].owner
    }

    /// Some record in the registry belongs to `owner`.
    pub open spec fn spec_contains_owner(self, owner: Identity) -> bool {
        exists|i: int| 0 <= i < self.records@.len() && self.records@[i].owner == owner
    }

    pub fn new() -> (r: Registry)
        ensures
            r.records@.len() == 0,
            r.well_formed(),
    {
        Registry { records: Vec::new() }
    }

    /// Whether a record already exists for `owner`.
    pub fn contains_owner(&self, owner: &Identity) -> (r: bool)
        ensures
            r == self.spec_contains_owner(*owner),
    {
        let mut i: usize = 0;
        while i < self.records.len()
            invariant
                0 <= i <= self.records@.len(),
                forall|j: int| 0 <= j < i ==> self.records@[j].owner != *owner,
            decreases self.records@.len() - i,
        {
            if self.records[i].owner.equals(owner) {
                return true;
            }
            i += 1;
        }
        false
    }

    /// The reputation currently recorded for `owner`, if a record exists.
    pub fn reputation_of(&self, owner: &Identity) -> (r: Option<u64>)
        requires
            self.well_formed(),
        ensures
            match r {
                Some(rep) => exists|i: int|
                    0 <= i < self.records@.len() && self.records@[i].owner == *owner
                        && self.records@[i].reputation == rep,
                None => !self.spec_contains_owner(*owner),
            },
    {
        let mut i: usize = 0;
        while i < self.records.len()
            invariant
                0 <= i <= self.records@.len(),
                forall|j: int| 0 <= j < i ==> self.records@[j].owner != *owner,
            decreases self.records@.len() - i,
        {
            if self.records[i].owner.equals(owner) {
                return Some(self.records[i].reputation);
            }
            i += 1;
        }
        None
    }

    /// Create the one reputation record for `caller`.
    ///
    /// The caller must have produced a valid signature (the host's signature
    /// verification is trusted as the boolean `caller_is_signer`); the caller
    /// becomes the owner, the display name is set once, and reputation starts
    /// at zero. Creation fails with `AlreadyExists` if the caller already has
    /// a record, leaving the registry unchanged.
    pub fn initialize(
        &mut self,
        caller: Identity,
        caller_is_signer: bool,
        user_name: String,
    ) -> (r: Result<(), ReputationError>)
        requires
            old(self).well_formed(),
        ensures
            final(self).well_formed(),
            !caller_is_signer ==> r == Err::<(), ReputationError>(ReputationError::Unauthenticated)
                && *final(self) == *old(self),
            caller_is_signer && old(self).spec_contains_owner(caller) ==> r == Err::<
                (),
                ReputationError,
            >(ReputationError::AlreadyExists) && *final(self) == *old(self),
            caller_is_signer && !old(self).spec_contains_owner(caller) ==> r == Ok::<
                (),
                ReputationError,
            >(()) && final(self).records@ == old(self).records@.push(
                UserAccount { owner: caller, user_name, reputation: 0u64 },
            ),
            r is Ok ==> final(self).spec_contains_owner(caller),
    {
        if !caller_is_signer {
            return Err(ReputationError::Unauthenticated);
        }
        if self.contains_owner(&caller) {
            return Err(ReputationError::AlreadyExists);
        }
        let account = UserAccount { owner: caller, user_name, reputation: 0u64 };
        self.records.push(account);
        proof {
            let n = self.records@.len() - 1;
            assert(self.records@[n].owner == caller);
            assert forall|i: int, j: int|
                0 <= i < j < self.records@.len() implies self.records@[i].owner
                != self.records@[j].owner by {
                if j < n {
                    assert(old(self).records@[i].owner != old(self).records@[j].owner);
                }
            }
        }
        Ok(())
    }
}

} // verus!
