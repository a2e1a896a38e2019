//! Notifications appended to the host's event log for off-chain indexers.
//! The library only builds the payloads; handing them to the log is the
//! host runtime's side effect. Each payload is pinned exactly by a spec
//! function of the state around the instruction that emits it.

use vstd::prelude::*;
use crate::keys::Pubkey;
use crate::state::OggState;

verus! {

/// Which allocation a mint belonged to.
#[derive(Clone, Copy, PartialEq, Eq, Structural, Debug)]
pub enum MintType {
    /// The one-time initial allocation to the treasury.
    InitialSupply,
    /// The reserved future allocation (not minted in this version).
    FutureAllocation,
}

/// Emitted once, by `initialize`.
#[derive(Clone, Copy, PartialEq, Eq, Structural, Debug)]
pub struct ProgramInitialized {
    pub admin: Pubkey,
    pub mint: Pubkey,
    pub treasury: Pubkey,
    pub timestamp: i64,
}

/// Emitted by every successful mint.
#[derive(Clone, Copy, PartialEq, Eq, Structural, Debug)]
pub struct TokensMinted {
    pub amount: u64,
    pub recipient: Pubkey,
    pub total_minted: u64,
    pub mint_type: MintType,
    pub timestamp: i64,
}

/// Emitted by every successful treasury rotation.
#[derive(Clone, Copy, PartialEq, Eq, Structural, Debug)]
pub struct TreasuryUpdated {
    pub old_treasury: Pubkey,
    pub new_treasury: Pubkey,
    pub timestamp: i64,
}

/// The payload `initialize` emits, as a function of the state it wrote.
pub open spec fn spec_initialized_event(post: OggState, timestamp: i64) -> ProgramInitialized {
    ProgramInitialized {
        admin: post.admin,
        mint: post.mint,
        treasury: post.treasury,
        timestamp,
    }
}

/// The payload a successful mint of `amount` emits, as a function of the
/// state it wrote.
pub open spec fn spec_tokens_minted_event(post: OggState, amount: u64, mint_type: MintType, timestamp: i64) -> TokensMinted {
    TokensMinted {
        amount,
        recipient: post.treasury,
        total_minted: post.total_minted,
        mint_type,
        timestamp,
    }
}

/// The payload a treasury rotation to `new_treasury` emits, as a function
/// of the state it replaced.
pub open spec fn spec_treasury_updated_event(pre: OggState, new_treasury: Pubkey, timestamp: i64) -> TreasuryUpdated {
    TreasuryUpdated {
        old_treasury: pre.treasury,
        new_treasury,
        timestamp,
    }
}

impl ProgramInitialized {
    /// Build the notification for a state `initialize` just wrote.
    pub fn for_state(post: &OggState, timestamp: i64) -> (e: ProgramInitialized)
        ensures
            e == spec_initialized_event(*post, timestamp),
    {
        ProgramInitialized {
            admin: post.admin,
            mint: post.mint,
            treasury: post.treasury,
            timestamp,
        }
    }
}

impl TokensMinted {
    /// Build the notification for a mint of `amount` that a state update
    /// just recorded.
    pub fn for_mint(post: &OggState, amount: u64, mint_type: MintType, timestamp: i64) -> (e: TokensMinted)
        ensures
            e == spec_tokens_minted_event(*post, amount, mint_type, timestamp),
    {
        TokensMinted {
            amount,
            recipient: post.treasury,
            total_minted: post.total_minted,
            mint_type,
            timestamp,
        }
    }
}

impl TreasuryUpdated {
    /// Build the notification for a rotation away from the state `pre`.
    pub fn for_rotation(pre: &OggState, new_treasury: Pubkey, timestamp: i64) -> (e: TreasuryUpdated)
        ensures
            e == spec_treasury_updated_event(*pre, new_treasury, timestamp),
    {
        TreasuryUpdated {
            old_treasury: pre.treasury,
            new_treasury,
            timestamp,
        }
    }
}

} // verus!
