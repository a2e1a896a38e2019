//! Named, terminal faults. Every instruction either commits in full or
//! aborts with one of these; the host runtime rolls the transaction back.

use vstd::prelude::*;

verus! {

/// Faults of the token administration contract.
#[derive(Clone, Copy, PartialEq, Eq, Structural, Debug)]
pub enum OggError {
    /// `initialize` was called on a state record that is already live.
    AlreadyInitialized,
    /// An instruction other than `initialize` ran before `initialize`.
    NotInitialized,
    /// The one-time initial mint was attempted a second time.
    AlreadyMinted,
    /// An admin-gated instruction was called by someone other than the admin.
    Unauthorized,
    /// The destination token account is not owned by the recorded treasury.
    InvalidTreasury,
    /// A mint would push the cumulative total past the supply cap.
    ExceedsMaxSupply,
}

/// Faults of the byte calculator.
#[derive(Clone, Copy, PartialEq, Eq, Structural, Debug)]
pub enum CalcError {
    /// `div` was asked to divide by zero.
    DivisionByZero,
}

} // verus!
