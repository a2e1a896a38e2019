//! The contract's one persistent record and its supply constants.

use vstd::prelude::*;
use crate::keys::Pubkey;

verus! {

/// Total maximum supply: 10,000,000,000 whole tokens, 9 fractional digits.
pub const MAX_SUPPLY: u64 = 10_000_000_000 * 1_000_000_000;

/// The one-time initial mint: 19% of the maximum supply, 1,900,000,000
/// whole tokens, to the treasury.
pub const INITIAL_MINT_AMOUNT: u64 = 1_900_000_000 * 1_000_000_000;

/// Fractional digits of the token.
pub const TOKEN_DECIMALS: u8 = 9;

/// The singleton state record, held at an address the host derives
/// deterministically from [`STATE_SEED`](crate::seeds::STATE_SEED) and the
/// contract's identity.
#[derive(Clone, Copy, PartialEq, Eq, Structural, Debug)]
pub struct OggState {
    /// The wallet permitted to perform administrative operations.
    pub admin: Pubkey,
    /// The token mint this contract administers.
    pub mint: Pubkey,
    /// The wallet designated to receive the initial allocation.
    pub treasury: Pubkey,
    /// Cumulative amount minted through this contract; never decreases.
    pub total_minted: u64,
    /// Set exactly once, by `initialize`.
    pub is_initialized: bool,
    /// Derivation salt of the state record's address.
    pub state_bump: u8,
    /// Derivation salt of the mint-authority address.
    pub mint_authority_bump: u8,
}

impl OggState {
    /// Every reachable state: the supply cap holds, and nothing is minted
    /// before initialization.
    pub open spec fn wf(self) -> bool {
        &&& self.total_minted <= MAX_SUPPLY
        &&& !self.is_initialized ==> self.total_minted == 0
    }
}

impl Default for OggState {
    /// The content of a freshly allocated, still uninitialized record.
    fn default() -> (s: OggState)
        ensures
            s == (OggState {
                admin: Pubkey { w0: 0, w1: 0, w2: 0, w3: 0 },
                mint: Pubkey { w0: 0, w1: 0, w2: 0, w3: 0 },
                treasury: Pubkey { w0: 0, w1: 0, w2: 0, w3: 0 },
                total_minted: 0u64,
                is_initialized: false,
                state_bump: 0u8,
                mint_authority_bump: 0u8,
            }),
            !s.is_initialized,
            s.wf(),
    {
        OggState {
            admin: Pubkey::zeroed(),
            mint: Pubkey::zeroed(),
            treasury: Pubkey::zeroed(),
            total_minted: 0,
            is_initialized: false,
            state_bump: 0,
            mint_authority_bump: 0,
        }
    }
}

} // verus!
