//! Account identities. The host ledger names accounts by 32-byte public
//! keys; the contract's rules only ever compare two of them for equality,
//! so the library carries a key as four 64-bit words.

use vstd::prelude::*;

verus! {

/// A 32-byte account address, stored as four little-endian 64-bit words.
#[derive(Clone, Copy, PartialEq, Eq, Structural, Debug, Hash)]
pub struct Pubkey {
    pub w0: u64,
    pub w1: u64,
    pub w2: u64,
    pub w3: u64,
}

impl Pubkey {
    /// The all-zero address, the content of a freshly allocated account.
    pub fn zeroed() -> (k: Pubkey)
        ensures
            k == (Pubkey { w0: 0, w1: 0, w2: 0, w3: 0 }),
    {
        Pubkey { w0: 0, w1: 0, w2: 0, w3: 0 }
    }
}

impl Default for Pubkey {
    fn default() -> (k: Pubkey)
        ensures
            k == (Pubkey { w0: 0, w1: 0, w2: 0, w3: 0 }),
    {
        Pubkey::zeroed()
    }
}

} // verus!
