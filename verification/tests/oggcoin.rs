use oggcoin::errors::OggError;
use oggcoin::events::{MintType, ProgramInitialized, TokensMinted, TreasuryUpdated};
use oggcoin::keys::Pubkey;
use oggcoin::oggcoin::{
    get_state, initialize, mint_future_allocation, mint_initial_supply, require_admin,
    update_treasury,
};
use oggcoin::state::{OggState, INITIAL_MINT_AMOUNT, MAX_SUPPLY, TOKEN_DECIMALS};

fn key(w: u64) -> Pubkey {
    Pubkey { w0: w, w1: w, w2: 0, w3: w }
}

fn fresh() -> OggState {
    OggState::default()
}

fn initialized() -> (OggState, Pubkey, Pubkey, Pubkey) {
    let (admin, mint, treasury) = (key(1), key(2), key(3));
    let mut s = fresh();
    let r = initialize(&mut s, admin, mint, treasury, 254, 253);
    assert_eq!(r, Ok(()));
    (s, admin, mint, treasury)
}

#[test]
fn constants_match_the_wire_contract() {
    assert_eq!(MAX_SUPPLY, 10_000_000_000_000_000_000u64);
    assert_eq!(INITIAL_MINT_AMOUNT, 1_900_000_000_000_000_000u64);
    assert_eq!(TOKEN_DECIMALS, 9u8);
    assert_eq!(oggcoin::seeds::STATE_SEED, "ogg_state");
    assert_eq!(oggcoin::seeds::MINT_AUTHORITY_SEED, "ogg_mint_authority");
}

#[test]
fn initialize_populates_the_record() {
    let (s, admin, mint, treasury) = initialized();
    assert_eq!(s.admin, admin);
    assert_eq!(s.mint, mint);
    assert_eq!(s.treasury, treasury);
    assert_eq!(s.total_minted, 0);
    assert!(s.is_initialized);
    assert_eq!(s.state_bump, 254);
    assert_eq!(s.mint_authority_bump, 253);
}

#[test]
fn initialize_twice_fails_and_changes_nothing() {
    let (mut s, _, _, _) = initialized();
    let before = s;
    let r = initialize(&mut s, key(7), key(8), key(9), 1, 2);
    assert_eq!(r, Err(OggError::AlreadyInitialized));
    assert_eq!(s, before);
}

#[test]
fn mint_before_initialize_fails() {
    let mut s = fresh();
    let before = s;
    let r = mint_initial_supply(&mut s, key(3));
    assert_eq!(r, Err(OggError::NotInitialized));
    assert_eq!(s, before);
}

#[test]
fn mint_initial_supply_mints_once() {
    let (mut s, _, _, treasury) = initialized();
    // The harness stands in for the token service: it credits the amount
    // the instruction tells it to mint.
    let mut treasury_balance = 0u64;
    let r = mint_initial_supply(&mut s, treasury);
    assert_eq!(r, Ok(INITIAL_MINT_AMOUNT));
    treasury_balance += r.unwrap();
    assert_eq!(s.total_minted, INITIAL_MINT_AMOUNT);
    assert_eq!(treasury_balance, 1_900_000_000_000_000_000u64);

    let after_first = s;
    let r2 = mint_initial_supply(&mut s, treasury);
    assert_eq!(r2, Err(OggError::AlreadyMinted));
    assert_eq!(s, after_first);
    // No amount came back, so the external balance stays put.
    assert_eq!(treasury_balance, INITIAL_MINT_AMOUNT);
}

#[test]
fn mint_to_a_foreign_token_account_fails() {
    let (mut s, _, _, _) = initialized();
    let before = s;
    let r = mint_initial_supply(&mut s, key(99));
    assert_eq!(r, Err(OggError::InvalidTreasury));
    assert_eq!(s, before);
    assert_eq!(s.total_minted, 0);
}

#[test]
fn update_treasury_by_non_admin_fails() {
    let (mut s, _, _, treasury) = initialized();
    let r = update_treasury(&mut s, key(42), key(50));
    assert_eq!(r, Err(OggError::Unauthorized));
    assert_eq!(s.treasury, treasury);
}

#[test]
fn update_treasury_by_admin_rotates_and_reports_old_and_new() {
    let (mut s, admin, mint, old_treasury) = initialized();
    let new_treasury = key(50);
    let pre = s;
    let r = update_treasury(&mut s, admin, new_treasury);
    assert_eq!(r, Ok(()));
    assert_eq!(s.treasury, new_treasury);
    assert_eq!(s.admin, admin);
    assert_eq!(s.mint, mint);
    assert_eq!(s.total_minted, 0);
    let e = TreasuryUpdated::for_rotation(&pre, new_treasury, 1_700_000_000);
    assert_eq!(e.old_treasury, old_treasury);
    assert_eq!(e.new_treasury, new_treasury);
    assert_eq!(e.timestamp, 1_700_000_000);
}

#[test]
fn mint_future_allocation_is_an_admin_gated_no_op() {
    let (s, admin, _, _) = initialized();
    assert_eq!(mint_future_allocation(&s, admin, 400), Ok(()));
    assert_eq!(mint_future_allocation(&s, key(42), 400), Err(OggError::Unauthorized));
}

#[test]
fn require_admin_gates_on_the_recorded_admin() {
    let (s, admin, _, _) = initialized();
    assert_eq!(require_admin(&s, admin), Ok(()));
    assert_eq!(require_admin(&s, key(42)), Err(OggError::Unauthorized));
}

#[test]
fn get_state_is_a_no_op() {
    let (s, _, _, _) = initialized();
    assert_eq!(get_state(&s), Ok(()));
}

#[test]
fn initialize_emits_the_recorded_identities() {
    let (s, admin, mint, treasury) = initialized();
    let e = ProgramInitialized::for_state(&s, 7);
    assert_eq!(e.admin, admin);
    assert_eq!(e.mint, mint);
    assert_eq!(e.treasury, treasury);
    assert_eq!(e.timestamp, 7);
}

#[test]
fn mint_emits_amount_recipient_and_new_total() {
    let (mut s, _, _, treasury) = initialized();
    let r = mint_initial_supply(&mut s, treasury);
    let e = TokensMinted::for_mint(&s, r.unwrap(), MintType::InitialSupply, 9);
    assert_eq!(e.amount, INITIAL_MINT_AMOUNT);
    assert_eq!(e.recipient, treasury);
    assert_eq!(e.total_minted, INITIAL_MINT_AMOUNT);
    assert!(e.mint_type == MintType::InitialSupply);
    assert_eq!(e.timestamp, 9);
}

#[test]
fn end_to_end_initialize_then_mint() {
    let (admin, mint, treasury) = (key(11), key(12), key(13));
    let mut s = OggState::default();
    let mut treasury_balance = 0u64;

    assert_eq!(initialize(&mut s, admin, mint, treasury, 250, 249), Ok(()));
    let minted = mint_initial_supply(&mut s, treasury).unwrap();
    treasury_balance += minted;

    assert_eq!(s.total_minted, 1_900_000_000_000_000_000u64);
    assert_eq!(treasury_balance, 1_900_000_000_000_000_000u64);
    assert!(s.total_minted <= MAX_SUPPLY);
}
