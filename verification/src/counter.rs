//! A counter owned by one authority.

use anchor_lang::prelude::Pubkey;
use vstd::prelude::*;

use crate::error::ErrorCode;

verus! {

/// A count and the authority that may change it.
#[derive(Clone, Copy, Debug, PartialEq, Eq)]
pub struct Counter {
    pub authority: Pubkey,
    pub count: u64,
}

/// Creates the counter of `user`, at zero.
pub fn initialize(user: Pubkey) -> (counter: Counter)
    ensures
        counter == (Counter { authority: user, count: 0 }),
{
    Counter { authority: user, count: 0 }
}

/// Raises the count by one. A counter at `u64::MAX` cannot be raised.
pub fn increment(counter: &mut Counter)
    requires
        old(counter).count < u64::MAX,
    ensures
        *final(counter) == (Counter { count: (old(counter).count + 1) as u64, ..*old(counter) }),
{
    counter.count = counter.count + 1;
}

/// Lowers the count by one. Rejected with `CannotDecrementBelowZero`
/// exactly when the count is zero, and the counter is then unchanged.
pub fn decrement(counter: &mut Counter) -> (result: Result<(), ErrorCode>)
    ensures
        match result {
            Ok(_) => old(counter).count > 0 && *final(counter) == (Counter {
                count: (old(counter).count - 1) as u64,
                ..*old(counter)
            }),
            Err(e) => e == ErrorCode::CannotDecrementBelowZero && old(counter).count == 0
                && *final(counter) == *old(counter),
        },
{
    if counter.count == 0 {
        return Err(ErrorCode::CannotDecrementBelowZero);
    }
    counter.count = counter.count - 1;
    Ok(())
}

} // verus!
