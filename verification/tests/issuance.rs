use solfidence::account::UserAccount;
use solfidence::authority::derive_mint_authority;
use solfidence::error::ReputationError;
use solfidence::identity::Identity;
use solfidence::issuance::{create_reputation_nft, issue_credential, MintAuthorization, MintLedger};
use solfidence::ledger::update_reputation;

fn identity(tag: u8) -> Identity {
    Identity::new([tag; 32])
}

fn account(owner: Identity) -> UserAccount {
    UserAccount { owner, user_name: String::from("alice"), reputation: 0 }
}

#[test]
fn derivation_is_deterministic() {
    let program_id = identity(9);
    let first = derive_mint_authority(&program_id).expect("derivation should find a bump");
    let second = derive_mint_authority(&program_id).expect("derivation should find a bump");
    assert_eq!(first.0, second.0);
    assert_eq!(first.1, second.1);
    // The derived authority is a fresh identity, not the program's own.
    assert_ne!(first.0, program_id);
}

#[test]
fn derivation_depends_on_the_program() {
    let a = derive_mint_authority(&identity(9)).expect("derivation should find a bump");
    let b = derive_mint_authority(&identity(10)).expect("derivation should find a bump");
    assert_ne!(a.0, b.0);
}

#[test]
fn owner_issuance_mints_exactly_one_unit() {
    let owner = identity(1);
    let other = identity(2);
    let program_id = identity(9);
    let acct = account(owner);
    let mut service = MintLedger::new();
    let r = issue_credential(&acct, &owner, &program_id, &mut service);
    assert_eq!(r, Ok(()));
    assert_eq!(service.units_for(&owner), 1);
    assert_eq!(service.units_for(&other), 0);
    assert_eq!(service.issued.len(), 1);
}

#[test]
fn non_owner_issuance_is_unauthorized_and_mints_nothing() {
    let owner = identity(1);
    let intruder = identity(2);
    let program_id = identity(9);
    let acct = account(owner);
    let mut service = MintLedger::new();
    let r = issue_credential(&acct, &intruder, &program_id, &mut service);
    assert_eq!(r, Err(ReputationError::Unauthorized));
    assert_eq!(service.units_for(&owner), 0);
    assert_eq!(service.issued.len(), 0);
}

#[test]
fn double_issuance_mints_two_units() {
    let owner = identity(1);
    let program_id = identity(9);
    let acct = account(owner);
    let mut service = MintLedger::new();
    assert_eq!(issue_credential(&acct, &owner, &program_id, &mut service), Ok(()));
    assert_eq!(issue_credential(&acct, &owner, &program_id, &mut service), Ok(()));
    assert_eq!(service.units_for(&owner), 2);
    assert_eq!(service.issued.len(), 2);
}

#[test]
fn authorization_carries_the_derived_authority() {
    let owner = identity(1);
    let program_id = identity(9);
    let acct = account(owner);
    let auth = create_reputation_nft(&acct, &owner, &program_id).expect("owner may issue");
    let derived = derive_mint_authority(&program_id).expect("derivation should find a bump");
    assert_eq!(auth.authority, derived.0);
    assert_eq!(auth.bump, derived.1);
    assert_eq!(auth.destination, owner);
    assert_eq!(auth.amount, 1);
}

#[test]
fn create_from_non_owner_is_unauthorized() {
    let owner = identity(1);
    let intruder = identity(2);
    let acct = account(owner);
    let r = create_reputation_nft(&acct, &intruder, &identity(9));
    assert_eq!(r.err(), Some(ReputationError::Unauthorized));
}

#[test]
fn service_refuses_a_tampered_bump() {
    let owner = identity(1);
    let program_id = identity(9);
    let acct = account(owner);
    let good = create_reputation_nft(&acct, &owner, &program_id).expect("owner may issue");
    let tampered = MintAuthorization {
        authority: good.authority,
        bump: good.bump.wrapping_add(1),
        destination: good.destination,
        amount: good.amount,
    };
    let mut service = MintLedger::new();
    let r = service.mint(&tampered, &program_id);
    assert_eq!(r, Err(ReputationError::IssuanceFailed));
    assert_eq!(service.units_for(&owner), 0);
}

#[test]
fn service_refuses_a_forged_authority() {
    let owner = identity(1);
    let program_id = identity(9);
    let acct = account(owner);
    let good = create_reputation_nft(&acct, &owner, &program_id).expect("owner may issue");
    let forged = MintAuthorization {
        authority: identity(4),
        bump: good.bump,
        destination: good.destination,
        amount: good.amount,
    };
    let mut service = MintLedger::new();
    assert_eq!(service.mint(&forged, &program_id), Err(ReputationError::IssuanceFailed));
    assert_eq!(service.issued.len(), 0);
}

#[test]
fn service_refuses_more_than_one_unit() {
    let owner = identity(1);
    let program_id = identity(9);
    let acct = account(owner);
    let good = create_reputation_nft(&acct, &owner, &program_id).expect("owner may issue");
    let greedy = MintAuthorization { amount: 2, ..good };
    let mut service = MintLedger::new();
    assert_eq!(service.mint(&greedy, &program_id), Err(ReputationError::IssuanceFailed));
    assert_eq!(service.issued.len(), 0);
}

#[test]
fn issuance_leaves_reputation_alone_and_stays_possible_after_updates() {
    let owner = identity(1);
    let program_id = identity(9);
    let mut acct = account(owner);
    let mut service = MintLedger::new();
    assert_eq!(issue_credential(&acct, &owner, &program_id, &mut service), Ok(()));
    assert_eq!(acct.reputation, 0);
    assert_eq!(update_reputation(&mut acct, &owner, 42), Ok(()));
    assert_eq!(issue_credential(&acct, &owner, &program_id, &mut service), Ok(()));
    assert_eq!(acct.reputation, 42);
    assert_eq!(service.units_for(&owner), 2);
}
