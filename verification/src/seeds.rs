//! Fixed derivation seeds. The host ledger derives the state record's
//! address and the mint-authority address deterministically from these
//! seeds plus the contract's identity; the recorded bumps let later
//! instructions re-derive the same addresses without searching.

use vstd::prelude::*;

verus! {

/// Seed of the state record's address.
pub const STATE_SEED: &'static str = "ogg_state";

/// Seed of the mint-authority address, the capability the token service
/// recognizes as permitted to mint.
pub const MINT_AUTHORITY_SEED: &'static str = "ogg_mint_authority";

} // verus!
