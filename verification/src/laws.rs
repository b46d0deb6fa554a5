//! The laws of the ledger: properties that relate several operations, or
//! that hold of every reachable state, stated over the same spec functions
//! the operations' own contracts use.

use vstd::prelude::*;

use crate::entities::{Pool, PoolError, Principal, State};
use crate::ops::{
    admin_authorized, claim_debit, claim_outcome, claim_post_pool, confirmed_state,
    deposit_authorized, deposit_charge, deposit_confirm_authorized, deposit_post_pool,
    deposit_post_state, fee_of, ownership_transferred, withdraw_authorized, withdraw_outcome,
};

verus! {

/// Law: fee accrual. A successful deposit of `amount` raises the pool's
/// reward balance by exactly the truncated fee `amount * fee_percent / 100`,
/// and charges the depositor exactly the principal plus that fee.
pub proof fn lemma_fee_accrual(pool: Pool, amount: u64)
    requires
        pool.reward_amount + fee_of(amount, pool.fee_percent) <= u64::MAX,
    ensures
        deposit_post_pool(pool, amount).reward_amount == pool.reward_amount + amount
            * pool.fee_percent / 100,
        deposit_charge(amount, pool.fee_percent) == amount + amount * pool.fee_percent / 100,
{
}

/// Law: deposit/confirm round trip. After a deposit by an authorized
/// depositor, confirming with the matching amount is itself authorized and
/// leaves the position idle with its amount reset to zero — the reset
/// discards the supplied value, as `confirmed_state` takes none.
pub proof fn lemma_deposit_confirm_round_trip(
    pool: Pool,
    state: State,
    caller: Principal,
    amount: u64,
)
    requires
        deposit_authorized(pool, state, caller),
    ensures
        deposit_confirm_authorized(pool, deposit_post_state(state, amount), caller, amount),
        confirmed_state(deposit_post_state(state, amount)).status is Idle,
        confirmed_state(deposit_post_state(state, amount)).amount == 0,
{
}

/// Law: owner claim bound. With the maintenance lock clear, an owner claim
/// above the reward balance fails with `InsufficientFunds`; one within the
/// reward balance that the pool's native balance covers succeeds and lowers
/// the reward balance by exactly the claimed amount.
pub proof fn lemma_owner_claim_bound(pool: Pool, pool_balance: u64, caller: Principal, amount: u64)
    requires
        caller == pool.owner,
        !pool.init,
    ensures
        amount > pool.reward_amount ==> claim_outcome(pool, pool_balance, caller, amount)
            == Err::<(), PoolError>(PoolError::InsufficientFunds),
        amount <= pool.reward_amount && pool_balance >= claim_debit(pool, caller, amount)
            ==> claim_outcome(pool, pool_balance, caller, amount) is Ok && claim_post_pool(
            pool,
            caller,
            amount,
        ).reward_amount == pool.reward_amount - amount,
{
}

/// Law: the delegate claim is unbounded — documented, not corrected. A
/// caller that is the token delegate and not the owner may claim any amount
/// up to the pool's actual native balance, with the reward balance neither
/// consulted nor decremented, and with the maintenance lock not consulted
/// either.
pub proof fn lemma_delegate_claim_unbounded(
    pool: Pool,
    pool_balance: u64,
    caller: Principal,
    amount: u64,
)
    requires
        caller == pool.token,
        caller != pool.owner,
        amount <= pool_balance,
    ensures
        claim_outcome(pool, pool_balance, caller, amount) is Ok,
        claim_debit(pool, caller, amount) == amount,
        claim_post_pool(pool, caller, amount) == pool,
{
}

/// Law: ownership transfer effect. Once the pool's ownership is handed
/// over, the former owner — provided it does not also hold the delegate
/// role — loses administration rights and its claims fail with
/// `InvalidAuthorization`, while the new owner gains administration rights
/// and its claims succeed whenever the lock is clear and both the reward
/// balance and the pool's native balance cover them.
pub proof fn lemma_ownership_transfer_gates(
    pool: Pool,
    pool_balance: u64,
    new_owner: Principal,
    amount: u64,
)
    requires
        pool.owner != new_owner,
        pool.owner != pool.token,
    ensures
        !admin_authorized(ownership_transferred(pool, new_owner), pool.owner),
        admin_authorized(ownership_transferred(pool, new_owner), new_owner),
        claim_outcome(ownership_transferred(pool, new_owner), pool_balance, pool.owner, amount)
            == Err::<(), PoolError>(PoolError::InvalidAuthorization),
        !pool.init && amount <= pool.reward_amount && pool_balance >= claim_debit(
            ownership_transferred(pool, new_owner),
            new_owner,
            amount,
        ) ==> claim_outcome(
            ownership_transferred(pool, new_owner),
            pool_balance,
            new_owner,
            amount,
        ) is Ok,
{
}

/// Law: active-flag gate. While the maintenance lock is set, a withdraw
/// whose authorization predicate holds, and an owner claim, both fail with
/// `InactiveOperationBlocked`, whatever the rest of the state.
pub proof fn lemma_active_flag_gate(
    pool: Pool,
    state: State,
    pool_balance: u64,
    caller: Principal,
    amount: u64,
)
    requires
        pool.init,
    ensures
        withdraw_authorized(pool, state, caller) ==> withdraw_outcome(
            pool,
            state,
            pool_balance,
            caller,
            amount,
        ) == Err::<(), PoolError>(PoolError::InactiveOperationBlocked),
        caller == pool.owner ==> claim_outcome(pool, pool_balance, caller, amount) == Err::<
            (),
            PoolError,
        >(PoolError::InactiveOperationBlocked),
{
}

} // verus!
