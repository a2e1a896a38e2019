//! The five instructions of the token administration contract, as pure
//! transitions over [`OggState`]. Each runs inside one atomic host
//! transaction: the host either commits the returned state together with
//! the instruction's external effects, or rolls everything back.
//!
//! The one external effect with substance is the initial mint:
//! [`mint_initial_supply`] does not move balances itself, it returns the
//! amount the token service must mint to the treasury's token account,
//! authorized by the mint-authority derivation. A caller performs that
//! mint-to call exactly when the result is `Ok`.

use vstd::prelude::*;
use crate::errors::OggError;
use crate::keys::Pubkey;
use crate::state::{OggState, INITIAL_MINT_AMOUNT, MAX_SUPPLY};

verus! {

/// What `initialize(admin, mint, treasury)` does to a state record.
pub open spec fn spec_initialize(
    pre: OggState,
    admin: Pubkey,
    mint: Pubkey,
    treasury: Pubkey,
    state_bump: u8,
    mint_authority_bump: u8,
) -> (OggState, Result<(), OggError>) {
    if pre.is_initialized {
        (pre, Err(OggError::AlreadyInitialized))
    } else {
        (
            OggState {
                admin,
                mint,
                treasury,
                total_minted: 0u64,
                is_initialized: true,
                state_bump,
                mint_authority_bump,
            },
            Ok(()),
        )
    }
}

/// What `mint_initial_supply` does to a state record whose destination
/// token account is owned by `token_account_owner`. An `Ok` carries the
/// amount the token service must mint.
pub open spec fn spec_mint_initial_supply(
    pre: OggState,
    token_account_owner: Pubkey,
) -> (OggState, Result<u64, OggError>) {
    if !pre.is_initialized {
        (pre, Err(OggError::NotInitialized))
    } else if pre.total_minted != 0 {
        (pre, Err(OggError::AlreadyMinted))
    } else if token_account_owner != pre.treasury {
        (pre, Err(OggError::InvalidTreasury))
    } else {
        (
            OggState { total_minted: INITIAL_MINT_AMOUNT, ..pre },
            Ok(INITIAL_MINT_AMOUNT),
        )
    }
}

/// What `update_treasury(new_treasury)` called by `caller` does to a
/// state record.
pub open spec fn spec_update_treasury(
    pre: OggState,
    caller: Pubkey,
    new_treasury: Pubkey,
) -> (OggState, Result<(), OggError>) {
    if caller != pre.admin {
        (pre, Err(OggError::Unauthorized))
    } else {
        (OggState { treasury: new_treasury, ..pre }, Ok(()))
    }
}

/// The authorization gate applied before every admin-only operation.
pub fn require_admin(state: &OggState, caller: Pubkey) -> (r: Result<(), OggError>)
    ensures
        r is Ok <==> caller == state.admin,
        r is Err ==> r == Err::<(), OggError>(OggError::Unauthorized),
{
    if caller == state.admin {
        Ok(())
    } else {
        Err(OggError::Unauthorized)
    }
}

/// Populate a fresh state record: record the admin, the mint this contract
/// administers, the treasury, and the two derivation salts; start the
/// minted counter at zero. Fails, changing nothing, if the record is
/// already live.
pub fn initialize(
    state: &mut OggState,
    admin: Pubkey,
    mint: Pubkey,
    treasury: Pubkey,
    state_bump: u8,
    mint_authority_bump: u8,
) -> (r: Result<(), OggError>)
    ensures
        (*final(state), r) == spec_initialize(*old(state), admin, mint, treasury, state_bump, mint_authority_bump),
        r is Ok <==> !old(state).is_initialized,
        r is Err ==> r == Err::<(), OggError>(OggError::AlreadyInitialized) && *final(state) == *old(state),
        r is Ok ==> final(state).admin == admin && final(state).mint == mint
            && final(state).treasury == treasury && final(state).total_minted == 0
            && final(state).is_initialized,
        r is Ok ==> final(state).wf(),
        old(state).wf() ==> final(state).wf(),
{
    if state.is_initialized {
        return Err(OggError::AlreadyInitialized);
    }
    state.admin = admin;
    state.mint = mint;
    state.treasury = treasury;
    state.total_minted = 0;
    state.is_initialized = true;
    state.state_bump = state_bump;
    state.mint_authority_bump = mint_authority_bump;
    Ok(())
}

/// The one-time initial mint. When the record is initialized, nothing has
/// been minted yet, and the destination token account belongs to the
/// recorded treasury, the minted counter advances to `INITIAL_MINT_AMOUNT`
/// and the same amount is returned for the token service to mint; in the
/// same transaction the caller performs that mint-to call, so the counter
/// and the external balance move together or not at all. Any failure
/// changes nothing and returns no amount to mint.
pub fn mint_initial_supply(
    state: &mut OggState,
    token_account_owner: Pubkey,
) -> (r: Result<u64, OggError>)
    ensures
        (*final(state), r) == spec_mint_initial_supply(*old(state), token_account_owner),
        r is Ok <==> old(state).is_initialized && old(state).total_minted == 0
            && token_account_owner == old(state).treasury,
        r is Ok ==> r == Ok::<u64, OggError>(INITIAL_MINT_AMOUNT)
            && *final(state) == (OggState { total_minted: INITIAL_MINT_AMOUNT, ..*old(state) }),
        r is Err ==> *final(state) == *old(state),
        !old(state).is_initialized ==> r == Err::<u64, OggError>(OggError::NotInitialized),
        old(state).is_initialized && old(state).total_minted != 0
            ==> r == Err::<u64, OggError>(OggError::AlreadyMinted),
        old(state).is_initialized && old(state).total_minted == 0
            && token_account_owner != old(state).treasury
            ==> r == Err::<u64, OggError>(OggError::InvalidTreasury),
        final(state).total_minted >= old(state).total_minted,
        old(state).wf() ==> final(state).wf(),
{
    if !state.is_initialized {
        return Err(OggError::NotInitialized);
    }
    if state.total_minted != 0 {
        return Err(OggError::AlreadyMinted);
    }
    if token_account_owner != state.treasury {
        return Err(OggError::InvalidTreasury);
    }
    state.total_minted = INITIAL_MINT_AMOUNT;
    Ok(INITIAL_MINT_AMOUNT)
}

/// Reserved for a later version: only the admin may call it, and it does
/// nothing. It exists so the instruction's calling signature is already
/// fixed.
pub fn mint_future_allocation(
    state: &OggState,
    caller: Pubkey,
    _amount: u64,
) -> (r: Result<(), OggError>)
    ensures
        r is Ok <==> caller == state.admin,
        r is Err ==> r == Err::<(), OggError>(OggError::Unauthorized),
{
    require_admin(state, caller)
}

/// Replace the treasury wallet. Only the admin may do so; a failure
/// changes nothing.
pub fn update_treasury(
    state: &mut OggState,
    caller: Pubkey,
    new_treasury: Pubkey,
) -> (r: Result<(), OggError>)
    ensures
        (*final(state), r) == spec_update_treasury(*old(state), caller, new_treasury),
        r is Ok <==> caller == old(state).admin,
        r is Err ==> r == Err::<(), OggError>(OggError::Unauthorized) && *final(state) == *old(state),
        r is Ok ==> *final(state) == (OggState { treasury: new_treasury, ..*old(state) }),
        old(state).wf() ==> final(state).wf(),
{
    let gate = require_admin(state, caller);
    if gate.is_err() {
        return Err(OggError::Unauthorized);
    }
    state.treasury = new_treasury;
    Ok(())
}

/// Read-only placeholder: the host's state-fetch mechanism is used to read
/// the record directly, so this does nothing and cannot fail.
pub fn get_state(state: &OggState) -> (r: Result<(), OggError>)
    ensures
        r == Ok::<(), OggError>(()),
{
    Ok(())
}

/// `is_initialized` moves false-to-true exactly once: a first `initialize`
/// on a fresh record succeeds, and a second one fails with
/// `AlreadyInitialized`, leaving every field exactly as the first call
/// wrote it.
pub proof fn lemma_initialize_at_most_once(
    s0: OggState,
    a1: Pubkey, m1: Pubkey, t1: Pubkey, sb1: u8, mb1: u8,
    a2: Pubkey, m2: Pubkey, t2: Pubkey, sb2: u8, mb2: u8,
)
    requires
        !s0.is_initialized,
    ensures
        ({
            let (s1, r1) = spec_initialize(s0, a1, m1, t1, sb1, mb1);
            let (s2, r2) = spec_initialize(s1, a2, m2, t2, sb2, mb2);
            &&& r1 == Ok::<(), OggError>(())
            &&& r2 == Err::<(), OggError>(OggError::AlreadyInitialized)
            &&& s2 == s1
        }),
{
}

/// The initial mint happens exactly once: on an initialized record with
/// nothing minted and the right destination owner it succeeds, and any
/// second attempt fails with `AlreadyMinted`, changes no field, and
/// returns no amount for the token service to mint — so the external
/// balance stays where the first mint left it.
pub proof fn lemma_mint_exactly_once(s0: OggState, owner1: Pubkey, owner2: Pubkey)
    requires
        s0.is_initialized,
        s0.total_minted == 0,
        owner1 == s0.treasury,
    ensures
        ({
            let (s1, r1) = spec_mint_initial_supply(s0, owner1);
            let (s2, r2) = spec_mint_initial_supply(s1, owner2);
            &&& r1 == Ok::<u64, OggError>(INITIAL_MINT_AMOUNT)
            &&& s1.total_minted == INITIAL_MINT_AMOUNT
            &&& r2 == Err::<u64, OggError>(OggError::AlreadyMinted)
            &&& s2 == s1
        }),
{
}

/// Whatever single instruction runs on a well-formed state, the state
/// stays well-formed, the minted counter never decreases and never passes
/// the supply cap, and only the one-time mint moves the counter at all.
pub proof fn lemma_instructions_preserve_invariants(
    s: OggState,
    admin: Pubkey, mint: Pubkey, treasury: Pubkey, sb: u8, mb: u8,
    owner: Pubkey, caller: Pubkey, new_treasury: Pubkey,
)
    requires
        s.wf(),
    ensures
        ({
            let (si, _) = spec_initialize(s, admin, mint, treasury, sb, mb);
            &&& si.wf()
            &&& si.total_minted >= s.total_minted
        }),
        ({
            let (sm, _) = spec_mint_initial_supply(s, owner);
            &&& sm.wf()
            &&& sm.total_minted >= s.total_minted
            &&& sm.total_minted <= MAX_SUPPLY
        }),
        ({
            let (su, _) = spec_update_treasury(s, caller, new_treasury);
            &&& su.wf()
            &&& su.total_minted == s.total_minted
        }),
{
}

/// An admin's treasury rotation replaces exactly the treasury field, and
/// the notification prescribed for it carries exactly the old and the new
/// treasury.
pub proof fn lemma_treasury_rotation(s0: OggState, caller: Pubkey, new_treasury: Pubkey, timestamp: i64)
    requires
        caller == s0.admin,
    ensures
        ({
            let (s1, r) = spec_update_treasury(s0, caller, new_treasury);
            let e = crate::events::spec_treasury_updated_event(s0, new_treasury, timestamp);
            &&& r == Ok::<(), OggError>(())
            &&& s1 == (OggState { treasury: new_treasury, ..s0 })
            &&& e.old_treasury == s0.treasury
            &&& e.new_treasury == new_treasury
        }),
{
}

/// A non-admin's rotation attempt fails with `Unauthorized` and the
/// treasury keeps its value.
pub proof fn lemma_treasury_rotation_gated(s0: OggState, caller: Pubkey, new_treasury: Pubkey)
    requires
        caller != s0.admin,
    ensures
        ({
            let (s1, r) = spec_update_treasury(s0, caller, new_treasury);
            &&& r == Err::<(), OggError>(OggError::Unauthorized)
            &&& s1 == s0
        }),
{
}

/// End to end: initializing a fresh record with treasury `t` and then
/// performing the initial mint to a token account owned by `t` leaves
/// `total_minted == INITIAL_MINT_AMOUNT` and tells the token service to
/// move exactly that amount to the treasury's account.
pub proof fn lemma_initialize_then_mint(
    s0: OggState,
    admin: Pubkey, mint: Pubkey, treasury: Pubkey, sb: u8, mb: u8,
)
    requires
        !s0.is_initialized,
    ensures
        ({
            let (s1, r1) = spec_initialize(s0, admin, mint, treasury, sb, mb);
            let (s2, r2) = spec_mint_initial_supply(s1, treasury);
            &&& r1 == Ok::<(), OggError>(())
            &&& r2 == Ok::<u64, OggError>(INITIAL_MINT_AMOUNT)
            &&& s2.total_minted == INITIAL_MINT_AMOUNT
            &&& s2.total_minted <= MAX_SUPPLY
            &&& s2.treasury == treasury
        }),
{
}

} // verus!
