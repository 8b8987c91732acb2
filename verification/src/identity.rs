//! Identities: fixed-width public-key equivalents that own records and sign
//! requests.

use vstd::prelude::*;

verus! {

/// A verifiable actor reference: 32 bytes, the width of an Ed25519 public
/// key. An identity either corresponds to a private key held by an actor, or
/// is a program-derived identity with no key at all.
#[verifier::ext_equal]
#[derive(Clone, Copy, Debug, PartialEq, Eq, Hash)]
pub struct Identity {
    pub bytes: [u8; 32],
}

impl View for Identity {
    type V = Seq<u8>;

    open spec fn view(&self) -> Seq<u8> {
        self.bytes@
    }
}

impl Identity {
    pub fn new(bytes: [u8; 32]) -> (r: Identity)
        ensures
            r.bytes == bytes,
    {
        Identity { bytes }
    }

    /// Byte-for-byte comparison; two identities are the same actor exactly
    /// when their bytes agree.
    pub fn equals(&self, other: &Identity) -> (r: bool)
        ensures
            r == (*self == *other),
    {
        let mut i: usize = 0;
        while i < 32
            invariant
                0 <= i <= 32,
                forall|j: int| 0 <= j < i ==> self.bytes[j] == other.bytes[j],
            decreases 32 - i,
        {
            if self.bytes[i] != other.bytes[i] {
                proof {
                    assert(self.bytes[i as int] != other.bytes[i as int]);
                }
                return false;
            }
            i += 1;
        }
        proof {
            assert(self.bytes =~= other.bytes);
        }
        true
    }
}

/// Two identities are equal exactly when their byte views are equal.
pub proof fn lemma_identity_view_injective(a: Identity, b: Identity)
    ensures
        (a@ == b@) <==> (a == b),
{
    if a@ == b@ {
        assert forall|i: int| 0 <= i < 32 implies a.bytes[i] == b.bytes[i] by {
            assert(a@[i] == b@[i]);
        }
        assert(a.bytes =~= b.bytes);
        assert(a =~= b);
    }
}

} // verus!
