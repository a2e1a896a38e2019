//! The auxiliary byte calculator: one stored byte result and the payer
//! that owns the record. `add` and `sub` use unchecked 8-bit arithmetic —
//! on the host an overflow or underflow aborts the transaction, so here
//! the overflowing operands are excluded up front. `div` rejects a zero
//! divisor with a named fault instead.

use vstd::prelude::*;
use crate::errors::CalcError;
use crate::keys::Pubkey;

verus! {

/// The calculator's record.
#[derive(Clone, Copy, PartialEq, Eq, Structural, Debug)]
pub struct Calculator {
    /// The last result, a single byte.
    pub result: u8,
    /// The wallet that paid for the record.
    pub payer: Pubkey,
}

impl Calculator {
    /// A fresh record for `payer`, with a zero result.
    pub fn new(payer: Pubkey) -> (c: Calculator)
        ensures
            c == (Calculator { result: 0u8, payer }),
    {
        Calculator { result: 0, payer }
    }

    /// Store `a + b`. The sum must fit in a byte: on the host, overflow is
    /// a fatal fault of the runtime, not a named error.
    pub fn add(&mut self, a: u8, b: u8)
        requires
            a + b <= u8::MAX,
        ensures
            final(self).result == a + b,
            final(self).payer == old(self).payer,
    {
        self.result = a + b;
    }

    /// Store `a - b`. The difference must not go below zero: on the host,
    /// underflow is a fatal fault of the runtime, not a named error.
    pub fn sub(&mut self, a: u8, b: u8)
        requires
            b <= a,
        ensures
            final(self).result == a - b,
            final(self).payer == old(self).payer,
    {
        self.result = a - b;
    }

    /// Store the integer quotient `a / b`, or fail with `DivisionByZero`,
    /// changing nothing, when `b` is zero.
    pub fn div(&mut self, a: u8, b: u8) -> (r: Result<(), CalcError>)
        ensures
            b == 0 ==> r == Err::<(), CalcError>(CalcError::DivisionByZero) && *final(self) == *old(self),
            b != 0 ==> r == Ok::<(), CalcError>(())
                && final(self).result == a / b
                && final(self).payer == old(self).payer,
    {
        if b == 0 {
            return Err(CalcError::DivisionByZero);
        }
        self.result = a / b;
        Ok(())
    }
}

} // verus!
