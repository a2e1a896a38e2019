//! Token administration: a single state record that registers a token mint,
//! performs a one-time initial mint to a treasury, and lets the admin rotate
//! the treasury address. A small byte calculator rides along.
//!
//! The library holds the validate-then-mutate rules as pure, verified
//! transitions over plain values. Durable storage, signature checks, the
//! token service's mint call, the clock and the event log live with the host
//! ledger runtime, outside this crate.

pub mod calculator;
pub mod errors;
pub mod events;
pub mod keys;
pub mod oggcoin;
pub mod seeds;
pub mod state;
