//! The delegated signing authority: a deterministic, keyless identity derived
//! from a fixed label.
//!
//! The derivation walks discriminator ("bump") bytes from 255 downward and
//! returns the first derived identity that lands outside the space of
//! identities with a private key. It is a pure function of the seed bytes and
//! the deriving program's identity, recomputed identically on every call and
//! never stored.

use vstd::prelude::*;
use crate::identity::Identity;
use crate::identity::lemma_identity_view_injective;

verus! {

/// The identity and bump that the host's program-address derivation returns
/// for one seed and one program identity; `None` when no bump byte yields an
/// identity off the key space.
pub uninterp spec fn derived_address_of(seed: Seq<u8>, program_id: Seq<u8>) -> Option<
    (Seq<u8>, u8),
>;

/// Relies on `Pubkey::derive_program_address` of `anchor_lang`'s re-exported
/// `solana_program::pubkey`: starting from bump byte 255 and decrementing, it
/// returns the first derived (SHA-256-based) address that is off the Ed25519
/// curve, together with that bump; `None` if no bump works or the seed is
/// over the host's seed-length cap. The result is a function of the seed
/// bytes and the program id alone.
#[verifier::external_body]
fn derive_program_address_one_seed(seed: &Vec<u8>, program_id: &Identity) -> (r: Option<
    (Identity, u8),
>)
    ensures
        r is Some <==> derived_address_of(seed@, program_id@) is Some,
        r matches Some(p) ==> derived_address_of(seed@, program_id@) == Some((p.0@, p.1)),
{
    let pk = anchor_lang::solana_program::pubkey::Pubkey::new_from_array(program_id.bytes);
    match anchor_lang::solana_program::pubkey::Pubkey::derive_program_address(
        &[seed.as_slice()],
        &pk,
    ) {
        Some((addr, bump)) => Some((Identity { bytes: addr.to_bytes() }, bump)),
        None => None,
    }
}

/// The bytes of the fixed label `"mint_authority"`.
pub open spec fn mint_authority_label() -> Seq<u8> {
    seq![109u8, 105u8, 110u8, 116u8, 95u8, 97u8, 117u8, 116u8, 104u8, 111u8, 114u8, 105u8, 116u8, 121u8]
}

/// The derived authority identity and bump for the fixed label, per deriving
/// program.
pub open spec fn mint_authority_of(program_id: Seq<u8>) -> Option<(Seq<u8>, u8)> {
    derived_address_of(mint_authority_label(), program_id)
}

/// `r` is exactly what the mint-authority derivation yields for `program_id`.
pub open spec fn is_mint_authority_derivation(r: Option<(Identity, u8)>, program_id: Identity) -> bool {
    match r {
        Some(p) => mint_authority_of(program_id@) == Some((p.0@, p.1)),
        None => mint_authority_of(program_id@) is None,
    }
}

/// The fixed label `"mint_authority"` as bytes.
pub fn mint_authority_label_bytes() -> (r: Vec<u8>)
    ensures
        r@ == mint_authority_label(),
{
    let r: Vec<u8> = vec![
        109u8, 105u8, 110u8, 116u8, 95u8, 97u8, 117u8, 116u8, 104u8, 111u8, 114u8, 105u8, 116u8,
        121u8,
    ];
    proof {
        assert(r@ =~= mint_authority_label());
    }
    r
}

/// Derive the mint authority for the given program identity: the keyless
/// identity that authorizes credential issuance, with its bump byte.
pub fn derive_mint_authority(program_id: &Identity) -> (r: Option<(Identity, u8)>)
    ensures
        is_mint_authority_derivation(r, *program_id),
{
    let label = mint_authority_label_bytes();
    derive_program_address_one_seed(&label, program_id)
}

/// The derived authority is deterministic: any two derivation results for the
/// same program identity are the same identity and the same bump.
pub proof fn lemma_mint_authority_deterministic(
    r1: Option<(Identity, u8)>,
    r2: Option<(Identity, u8)>,
    program_id: Identity,
)
    requires
        is_mint_authority_derivation(r1, program_id),
        is_mint_authority_derivation(r2, program_id),
    ensures
        r1 == r2,
{
    match (r1, r2) {
        (Some(p1), Some(p2)) => {
            assert(Some((p1.0@, p1.1)) == Some((p2.0@, p2.1)));
            assert(p1.0@ == p2.0@);
            lemma_identity_view_injective(p1.0, p2.0);
            assert(p1 == p2);
        },
        (Some(p1), None) => {
            assert(false);
        },
        (None, Some(p2)) => {
            assert(false);
        },
        (None, None) => {
        },
    }
}

} // verus!
