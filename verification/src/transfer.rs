//! The balance transfer primitive: the one place raw balances move. Every
//! higher-level operation composes a call to it.

use vstd::prelude::*;

use crate::entities::PoolError;

verus! {

/// Atomically debits `amount` native units from `from` and credits them to
/// `to`. Fails with `InsufficientFunds` when the source balance is below
/// `amount`; on failure neither balance is touched.
pub fn transfer(from: &mut u64, to: &mut u64, amount: u64) -> (r: Result<(), PoolError>)
    requires
        *old(from) >= amount ==> *old(to) + amount <= u64::MAX,
    ensures
        r is Ok <==> *old(from) >= amount,
        r is Ok ==> *final(from) == *old(from) - amount && *final(to) == *old(to) + amount,
        r is Err ==> r == Err::<(), PoolError>(PoolError::InsufficientFunds) && *final(from)
            == *old(from) && *final(to) == *old(to),
{
    if *from < amount {
        return Err(PoolError::InsufficientFunds);
    }
    *from = *from - amount;
    *to = *to + amount;
    Ok(())
}

} // verus!
