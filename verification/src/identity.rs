//! Cryptographic identities as plain 32-byte public keys.
//!
//! The hosting runtime verifies signatures; this crate only ever compares
//! identities, so a key is carried as its raw bytes.

use vstd::prelude::*;

verus! {

/// The number of bytes in a public key.
pub const KEY_LEN: usize = 32;

/// A cryptographic identity: the raw bytes of a public key.
///
/// The runtime that delivers a call has already proven that the authority
/// signed it; this type only supports comparing identities for equality.
#[derive(Clone, Copy, Debug)]
pub struct PublicKey {
    pub bytes: [u8; 32],
}

impl View for PublicKey {
    type V = Seq<u8>;

    open spec fn view(&self) -> Seq<u8> {
        self.bytes@
    }
}

impl PublicKey {
    /// Whether two identities are the same key, byte for byte.
    pub fn equals(&self, other: &PublicKey) -> (r: bool)
        ensures
            r == (self@ == other@),
    {
        let mut i: usize = 0;
        while i < KEY_LEN
            invariant
                0 <= i <= KEY_LEN,
                forall|j: int| 0 <= j < i ==> self.bytes@[j] == other.bytes@[j],
            decreases KEY_LEN - i,
        {
            if self.bytes[i] != other.bytes[i] {
                return false;
            }
            i += 1;
        }
        proof {
            assert(self@ =~= other@);
        }
        true
    }
}

} // verus!
