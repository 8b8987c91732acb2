//! Delegated credential issuance: the ownership gate, the signing proof for
//! the derived authority, and the collaborator's verification contract.
//!
//! The signing proof is the fixed label plus the bump byte. The issuance
//! service accepts it in lieu of a cryptographic signature only after it
//! independently re-derives the same identity from those seeds. Issuance is
//! deliberately not idempotent: no duplicate-prevention state is kept, so two
//! successful calls issue two units.

use vstd::prelude::*;
use crate::account::UserAccount;
use crate::authority::derive_mint_authority;
use crate::authority::mint_authority_of;
use crate::error::ReputationError;
use crate::identity::Identity;
use crate::identity::lemma_identity_view_injective;

verus! {

/// Authorization for a single-unit credential mint: the derived authority
/// presented as signer, the bump byte of its signing proof, the receiving
/// identity, and the amount (always one unit).
pub struct MintAuthorization {
    pub authority: Identity,
    pub bump: u8,
    pub destination: Identity,
    pub amount: u64,
}

/// The authorization a successful issuance request for `account` carries:
/// the mint authority derived for `program_id`, one unit, destined for the
/// record's owner.
pub open spec fn authorization_for(
    auth: MintAuthorization,
    account: UserAccount,
    program_id: Identity,
) -> bool {
    &&& mint_authority_of(program_id@) == Some((auth.authority@, auth.bump))
    &&& auth.destination == account.owner
    &&& auth.amount == 1
}

/// What the issuance service checks before minting: the presented authority
/// and bump re-derive under `program_id`, and exactly one unit is asked for.
pub open spec fn valid_authorization(auth: MintAuthorization, program_id: Identity) -> bool {
    &&& mint_authority_of(program_id@) == Some((auth.authority@, auth.bump))
    &&& auth.amount == 1
}

/// Gate a credential mint on ownership of the reputation record and construct
/// the signing proof for the derived authority.
///
/// A non-owner is refused with `Unauthorized`. For the owner, the mint
/// authority is derived fresh from the fixed label; if the derivation yields
/// no identity the request fails with `IssuanceFailed`. The record itself is
/// never mutated.
pub fn create_reputation_nft(account: &UserAccount, caller: &Identity, program_id: &Identity) -> (r:
    Result<MintAuthorization, ReputationError>)
    ensures
        *caller != account.owner ==> (r matches Err(e) && e == ReputationError::Unauthorized),
        *caller == account.owner && mint_authority_of(program_id@) is Some ==> (r matches Ok(auth)
            && authorization_for(auth, *account, *program_id)),
        *caller == account.owner && mint_authority_of(program_id@) is None ==> (r matches Err(e)
            && e == ReputationError::IssuanceFailed),
{
    if !caller.equals(&account.owner) {
        return Err(ReputationError::Unauthorized);
    }
    match derive_mint_authority(program_id) {
        None => Err(ReputationError::IssuanceFailed),
        Some((authority, bump)) => Ok(
            MintAuthorization { authority, bump, destination: account.owner, amount: 1 },
        ),
    }
}

/// How many units the log records as issued to `dest`.
pub open spec fn units_issued_to(log: Seq<Identity>, dest: Identity) -> nat
    decreases log.len(),
{
    if log.len() == 0 {
        0nat
    } else {
        units_issued_to(log.drop_last(), dest) + (if log.last() == dest {
            1nat
        } else {
            0nat
        })
    }
}

/// Issuing one unit to `x` raises `x`'s count by one and nobody else's.
pub proof fn lemma_units_issued_push(log: Seq<Identity>, x: Identity, dest: Identity)
    ensures
        units_issued_to(log.push(x), dest) == units_issued_to(log, dest) + (if x == dest {
            1nat
        } else {
            0nat
        }),
{
    assert(log.push(x).drop_last() =~= log);
    assert(log.push(x).last() == x);
}

/// The issuance service, modelled as the log of units it has minted: one log
/// entry per unit, holding the receiving identity.
pub struct MintLedger {
    pub issued: Vec<Identity>,
}

impl MintLedger {
    pub fn new() -> (r: MintLedger)
        ensures
            r.issued@.len() == 0,
    {
        MintLedger { issued: Vec::new() }
    }

    /// Mint one unit under a delegated signing proof.
    ///
    /// The service independently re-derives the authority from the fixed
    /// label under `program_id` and mints exactly one unit to the requested
    /// destination only if the presented authority, its bump, and the amount
    /// all check out; otherwise it refuses with `IssuanceFailed` and issues
    /// nothing.
    pub fn mint(&mut self, auth: &MintAuthorization, program_id: &Identity) -> (r: Result<
        (),
        ReputationError,
    >)
        ensures
            r is Ok <==> valid_authorization(*auth, *program_id),
            r is Ok ==> final(self).issued@ == old(self).issued@.push(auth.destination),
            r is Err ==> *final(self) == *old(self) && r == Err::<(), ReputationError>(
                ReputationError::IssuanceFailed,
            ),
    {
        if auth.amount != 1 {
            return Err(ReputationError::IssuanceFailed);
        }
        match derive_mint_authority(program_id) {
            None => Err(ReputationError::IssuanceFailed),
            Some((authority, bump)) => {
                if authority.equals(&auth.authority) && bump == auth.bump {
                    self.issued.push(auth.destination);
                    Ok(())
                } else {
                    proof {
                        lemma_identity_view_injective(authority, auth.authority);
                    }
                    Err(ReputationError::IssuanceFailed)
                }
            },
        }
    }

    /// How many units have been issued to `dest`.
    pub fn units_for(&self, dest: &Identity) -> (r: usize)
        ensures
            r == units_issued_to(self.issued@, *dest),
    {
        let mut count: usize = 0;
        let mut i: usize = 0;
        while i < self.issued.len()
            invariant
                0 <= i <= self.issued@.len(),
                count <= i,
                count == units_issued_to(self.issued@.take(i as int), *dest),
            decreases self.issued@.len() - i,
        {
            proof {
                assert(self.issued@.take(i + 1).drop_last() =~= self.issued@.take(i as int));
                assert(self.issued@.take(i + 1).last() == self.issued@[i as int]);
            }
            if self.issued[i].equals(dest) {
                count += 1;
            }
            i += 1;
        }
        proof {
            assert(self.issued@.take(i as int) =~= self.issued@);
        }
        count
    }
}

/// Issue a one-unit credential to the owner of `account`.
///
/// Composes the ownership gate and proof construction with the issuance
/// service's mint: a non-owner is refused with `Unauthorized` and nothing is
/// issued; for the owner, exactly one unit is issued to the owner whenever
/// the authority derivation yields an identity, and nothing otherwise.
pub fn issue_credential(
    account: &UserAccount,
    caller: &Identity,
    program_id: &Identity,
    service: &mut MintLedger,
) -> (r: Result<(), ReputationError>)
    ensures
        *caller != account.owner ==> r == Err::<(), ReputationError>(ReputationError::Unauthorized)
            && *final(service) == *old(service),
        *caller == account.owner && mint_authority_of(program_id@) is Some ==> r is Ok
            && final(service).issued@ == old(service).issued@.push(account.owner),
        *caller == account.owner && mint_authority_of(program_id@) is None ==> r == Err::<
            (),
            ReputationError,
        >(ReputationError::IssuanceFailed) && *final(service) == *old(service),
{
    match create_reputation_nft(account, caller, program_id) {
        Err(e) => Err(e),
        Ok(auth) => service.mint(&auth, program_id),
    }
}

/// A successful issuance mints exactly one unit: the owner's count rises by
/// one and every other identity's count is unchanged.
pub proof fn lemma_issuance_mints_exactly_one_unit(
    log0: Seq<Identity>,
    log1: Seq<Identity>,
    owner: Identity,
)
    requires
        log1 == log0.push(owner),
    ensures
        units_issued_to(log1, owner) == units_issued_to(log0, owner) + 1,
        forall|d: Identity| d != owner ==> units_issued_to(log1, d) == units_issued_to(log0, d),
{
    lemma_units_issued_push(log0, owner, owner);
    assert forall|d: Identity| d != owner implies units_issued_to(log1, d) == units_issued_to(
        log0,
        d,
    ) by {
        lemma_units_issued_push(log0, owner, d);
    }
}

/// No deduplication exists: two sequential successful issuances to the same
/// owner issue two units.
pub proof fn lemma_double_issuance_issues_two_units(
    log0: Seq<Identity>,
    log1: Seq<Identity>,
    log2: Seq<Identity>,
    owner: Identity,
)
    requires
        log1 == log0.push(owner),
        log2 == log1.push(owner),
    ensures
        units_issued_to(log2, owner) == units_issued_to(log0, owner) + 2,
{
    lemma_units_issued_push(log0, owner, owner);
    lemma_units_issued_push(log1, owner, owner);
}

} // verus!
