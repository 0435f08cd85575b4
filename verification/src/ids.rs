//! Identifiers handled by the bridge: 32-byte public keys (principals and
//! asset mints) and 32-byte source-chain transaction ids.

use vstd::prelude::*;

verus! {

/// A 32-byte public key: the identity of a principal (the bridge
/// authority, a token holder) or of an asset mint.
#[derive(Clone, Copy, Debug, PartialEq, Eq)]
pub struct Pubkey {
    pub bytes: [u8; 32],
}

impl View for Pubkey {
    type V = Seq<u8>;

    open spec fn view(&self) -> Seq<u8> {
        self.bytes@
    }
}

/// A 32-byte source-chain transaction identifier, recorded once a deposit
/// has been credited so that it can never be credited again.
#[derive(Clone, Copy, Debug, PartialEq, Eq)]
pub struct TxId {
    pub bytes: [u8; 32],
}

impl View for TxId {
    type V = Seq<u8>;

    open spec fn view(&self) -> Seq<u8> {
        self.bytes@
    }
}

/// Byte-for-byte equality of two 32-byte values.
fn bytes32_eq(a: &[u8; 32], b: &[u8; 32]) -> (r: bool)
    ensures
        r == (a@ == b@),
{
    let mut i: usize = 0;
    while i < 32
        invariant
            i <= 32,
            forall|j: int| 0 <= j < i ==> a@[j] == b@[j],
        decreases 32 - i,
    {
        if a[i] != b[i] {
            return false;
        }
        i += 1;
    }
    proof {
        assert(a@ =~= b@);
    }
    true
}

impl Pubkey {
    /// Whether two keys denote the same identity.
    pub fn key_eq(&self, other: &Pubkey) -> (r: bool)
        ensures
            r == (self@ == other@),
    {
        bytes32_eq(&self.bytes, &other.bytes)
    }
}

impl TxId {
    /// Whether two transaction ids denote the same source-chain event.
    pub fn id_eq(&self, other: &TxId) -> (r: bool)
        ensures
            r == (self@ == other@),
    {
        bytes32_eq(&self.bytes, &other.bytes)
    }
}

} // verus!
