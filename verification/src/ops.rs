//! The operation catalog: for each operation, the authorization predicate it
//! validates, the outcome it is owed, and the mutation it applies. Every
//! operation validates before it mutates and either commits all of its
//! effects or none of them.

use vstd::prelude::*;

use crate::entities::{Pool, PoolError, Principal, State, Status, state_wf};
use crate::transfer::transfer;

verus! {

// ---------------------------------------------------------------------------
// Fee arithmetic
// ---------------------------------------------------------------------------

/// The fee diverted to the pool's reward balance by a deposit of `amount`
/// at rate `fee_percent`: integer division truncates toward zero.
pub open spec fn fee_of(amount: u64, fee_percent: u64) -> int {
    amount * fee_percent / 100
}

/// What a deposit of `amount` debits from the depositor: principal plus fee.
pub open spec fn deposit_charge(amount: u64, fee_percent: u64) -> int {
    amount + fee_of(amount, fee_percent)
}

// ---------------------------------------------------------------------------
// Authorization predicates: the validate() side of each operation
// ---------------------------------------------------------------------------

/// A caller may administer the pool (fee rate, ownership) when it is the
/// pool's owner.
pub open spec fn admin_authorized(pool: Pool, caller: Principal) -> bool {
    caller == pool.owner
}

/// A caller may reconfigure the delegate and the lock flag when it is the
/// pool's current token delegate.
pub open spec fn delegate_authorized(pool: Pool, caller: Principal) -> bool {
    caller == pool.token
}

/// A deposit requires the position to belong to this pool and to the caller.
pub open spec fn deposit_authorized(pool: Pool, state: State, caller: Principal) -> bool {
    state.pool == pool.rand && state.owner == caller
}

/// A deposit confirmation requires the position to belong to this pool and
/// to the caller, a pending deposit, and the supplied amount to match the
/// recorded one.
pub open spec fn deposit_confirm_authorized(
    pool: Pool,
    state: State,
    caller: Principal,
    amount: u64,
) -> bool {
    state.pool == pool.rand && state.owner == caller && state.status is DepositPending
        && state.amount == amount
}

/// A withdraw approval requires the caller to be the pool owner and the
/// position to belong to this pool.
pub open spec fn withdraw_confirm_authorized(pool: Pool, state: State, caller: Principal) -> bool {
    caller == pool.owner && state.pool == pool.rand
}

/// A withdraw requires the position to belong to this pool and to the
/// caller, with an approved withdrawal recorded.
pub open spec fn withdraw_authorized(pool: Pool, state: State, caller: Principal) -> bool {
    state.pool == pool.rand && state.owner == caller && state.status is WithdrawApproved
}

/// A claim requires the caller to be the pool owner or its token delegate.
pub open spec fn claim_authorized(pool: Pool, caller: Principal) -> bool {
    caller == pool.owner || caller == pool.token
}

// ---------------------------------------------------------------------------
// Outcomes and post-states
// ---------------------------------------------------------------------------

/// The outcome a deposit is owed: the authorization predicate is checked
/// first, then the depositor's balance must cover principal plus fee.
pub open spec fn deposit_outcome(
    pool: Pool,
    state: State,
    caller_balance: u64,
    caller: Principal,
    amount: u64,
) -> Result<(), PoolError> {
    if !deposit_authorized(pool, state, caller) {
        Err(PoolError::InvalidAuthorization)
    } else if caller_balance < deposit_charge(amount, pool.fee_percent) {
        Err(PoolError::InsufficientFunds)
    } else {
        Ok(())
    }
}

/// The pool after a successful deposit of `amount`: the fee accrues to the
/// reward balance and nothing else changes.
pub open spec fn deposit_post_pool(pool: Pool, amount: u64) -> Pool {
    Pool { reward_amount: (pool.reward_amount + fee_of(amount, pool.fee_percent)) as u64, ..pool }
}

/// The position after a successful deposit of `amount`.
pub open spec fn deposit_post_state(state: State, amount: u64) -> State {
    State { amount, status: Status::DepositPending, ..state }
}

/// The position after a transfer cycle completes: back to idle with the
/// recorded amount reset. The reset is unconditional; it is not a function
/// of any supplied value.
pub open spec fn confirmed_state(state: State) -> State {
    State { amount: 0, status: Status::Idle, ..state }
}

/// The position after a successful withdraw approval of `amount`.
pub open spec fn withdraw_approved_state(state: State, amount: u64) -> State {
    State { amount, status: Status::WithdrawApproved, ..state }
}

/// The outcome a withdraw is owed: authorization first, then the maintenance
/// lock, then the pool balance must cover the amount.
pub open spec fn withdraw_outcome(
    pool: Pool,
    state: State,
    pool_balance: u64,
    caller: Principal,
    amount: u64,
) -> Result<(), PoolError> {
    if !withdraw_authorized(pool, state, caller) {
        Err(PoolError::InvalidAuthorization)
    } else if pool.init {
        Err(PoolError::InactiveOperationBlocked)
    } else if pool_balance < amount {
        Err(PoolError::InsufficientFunds)
    } else {
        Ok(())
    }
}

/// What a claim debits from the pool's native balance. The owner branch and
/// the delegate branch each transfer `amount`; a caller that is both owner
/// and delegate is paid by both branches.
pub open spec fn claim_debit(pool: Pool, caller: Principal, amount: u64) -> int {
    (if caller == pool.owner {
        amount as int
    } else {
        0
    }) + (if caller == pool.token {
        amount as int
    } else {
        0
    })
}

/// The outcome a claim is owed. Only the owner branch is gated by the
/// maintenance lock and bounded by the reward balance; the delegate branch
/// is bounded by nothing but the pool's actual native balance.
pub open spec fn claim_outcome(
    pool: Pool,
    pool_balance: u64,
    caller: Principal,
    amount: u64,
) -> Result<(), PoolError> {
    if !claim_authorized(pool, caller) {
        Err(PoolError::InvalidAuthorization)
    } else if caller == pool.owner && pool.init {
        Err(PoolError::InactiveOperationBlocked)
    } else if caller == pool.owner && amount > pool.reward_amount {
        Err(PoolError::InsufficientFunds)
    } else if pool_balance < claim_debit(pool, caller, amount) {
        Err(PoolError::InsufficientFunds)
    } else {
        Ok(())
    }
}

/// The pool after a successful claim: the owner branch decrements the
/// reward balance by `amount`; the delegate branch leaves it untouched.
pub open spec fn claim_post_pool(pool: Pool, caller: Principal, amount: u64) -> Pool {
    if caller == pool.owner {
        Pool { reward_amount: (pool.reward_amount - amount) as u64, ..pool }
    } else {
        pool
    }
}

/// The pool after its ownership has been handed to `new_owner`: the former
/// owner loses every owner-gated right atomically.
pub open spec fn ownership_transferred(pool: Pool, new_owner: Principal) -> Pool {
    Pool { owner: new_owner, ..pool }
}

// ---------------------------------------------------------------------------
// Pool administration
// ---------------------------------------------------------------------------

/// Initializes a new pool for the calling administrator: no reward revenue
/// yet, maintenance lock clear.
pub fn init_pool(caller: Principal, rand: Principal, token: Principal, fee_percent: u64) -> (p:
    Pool)
    ensures
        p == (Pool { owner: caller, token, rand, fee_percent, reward_amount: 0, init: false }),
{
    Pool { owner: caller, token, rand, fee_percent, reward_amount: 0, init: false }
}

/// Creates the calling depositor's position on `pool`, idle with no amount
/// in flight.
pub fn init_state(caller: Principal, pool: &Pool) -> (s: State)
    ensures
        s == (State { owner: caller, pool: pool.rand, amount: 0, status: Status::Idle }),
        state_wf(s),
{
    State { owner: caller, pool: pool.rand, amount: 0, status: Status::Idle }
}

/// Sets the pool's fee rate. Only the pool owner may; a pure field update.
pub fn set_fee(pool: &mut Pool, caller: Principal, fee_percent: u64) -> (r: Result<(), PoolError>)
    ensures
        r is Ok <==> admin_authorized(*old(pool), caller),
        r is Ok ==> *final(pool) == (Pool { fee_percent, ..*old(pool) }),
        r is Err ==> r == Err::<(), PoolError>(PoolError::InvalidAuthorization) && *final(pool)
            == *old(pool),
{
    if caller == pool.owner {
        pool.fee_percent = fee_percent;
        Ok(())
    } else {
        Err(PoolError::InvalidAuthorization)
    }
}

/// Sets the pool's maintenance lock. Only the token delegate may; a pure
/// field update whose semantic effect — blocking claim and withdraw while
/// set — is enforced by those operations.
pub fn set_init(pool: &mut Pool, caller: Principal, flag: bool) -> (r: Result<(), PoolError>)
    ensures
        r is Ok <==> delegate_authorized(*old(pool), caller),
        r is Ok ==> *final(pool) == (Pool { init: flag, ..*old(pool) }),
        r is Err ==> r == Err::<(), PoolError>(PoolError::InvalidAuthorization) && *final(pool)
            == *old(pool),
{
    if caller == pool.token {
        pool.init = flag;
        Ok(())
    } else {
        Err(PoolError::InvalidAuthorization)
    }
}

/// Hands the delegate role to `new_delegate`. Only the current token
/// delegate may.
pub fn set_token(pool: &mut Pool, caller: Principal, new_delegate: Principal) -> (r: Result<
    (),
    PoolError,
>)
    ensures
        r is Ok <==> delegate_authorized(*old(pool), caller),
        r is Ok ==> *final(pool) == (Pool { token: new_delegate, ..*old(pool) }),
        r is Err ==> r == Err::<(), PoolError>(PoolError::InvalidAuthorization) && *final(pool)
            == *old(pool),
{
    if caller == pool.token {
        pool.token = new_delegate;
        Ok(())
    } else {
        Err(PoolError::InvalidAuthorization)
    }
}

/// Hands pool ownership to `new_owner`, effective immediately. Only the
/// current owner may.
pub fn transfer_ownership(pool: &mut Pool, caller: Principal, new_owner: Principal) -> (r: Result<
    (),
    PoolError,
>)
    ensures
        r is Ok <==> admin_authorized(*old(pool), caller),
        r is Ok ==> *final(pool) == ownership_transferred(*old(pool), new_owner),
        r is Err ==> r == Err::<(), PoolError>(PoolError::InvalidAuthorization) && *final(pool)
            == *old(pool),
{
    if caller == pool.owner {
        pool.owner = new_owner;
        Ok(())
    } else {
        Err(PoolError::InvalidAuthorization)
    }
}

/// Kept as designed: accepts any signed caller and applies no mutation.
pub fn set_flag(_caller: Principal, _flag: bool) -> (r: Result<(), PoolError>)
    ensures
        r is Ok,
{
    Ok(())
}

// ---------------------------------------------------------------------------
// Deposit / withdraw state machine
// ---------------------------------------------------------------------------

/// Records a deposit of `amount` by `caller` on its position: the depositor
/// is debited principal plus fee in one atomic transfer, the fee accrues to
/// the pool's reward balance, and the position enters `DepositPending`. Any
/// failure leaves every record and balance untouched.
pub fn deposit(
    pool: &mut Pool,
    state: &mut State,
    caller: Principal,
    caller_balance: &mut u64,
    pool_balance: &mut u64,
    amount: u64,
) -> (r: Result<(), PoolError>)
    requires
        deposit_authorized(*old(pool), *old(state), caller) ==> amount * old(pool).fee_percent
            <= u64::MAX && deposit_charge(amount, old(pool).fee_percent) <= u64::MAX,
        deposit_outcome(*old(pool), *old(state), *old(caller_balance), caller, amount) is Ok ==> old(pool).reward_amount + fee_of(amount, old(pool).fee_percent) <= u64::MAX && *old(pool_balance)
            + deposit_charge(amount, old(pool).fee_percent) <= u64::MAX,
    ensures
        r == deposit_outcome(*old(pool), *old(state), *old(caller_balance), caller, amount),
        r is Ok ==> *final(pool) == deposit_post_pool(*old(pool), amount) && *final(state)
            == deposit_post_state(*old(state), amount) && *final(caller_balance) == *old(caller_balance) - deposit_charge(amount, old(pool).fee_percent) && *final(pool_balance) == *old(pool_balance) + deposit_charge(amount, old(pool).fee_percent),
        r is Err ==> *final(pool) == *old(pool) && *final(state) == *old(state) && *final(caller_balance) == *old(caller_balance) && *final(pool_balance) == *old(pool_balance),
        state_wf(*old(state)) ==> state_wf(*final(state)),
{
    if !(state.pool == pool.rand && state.owner == caller) {
        return Err(PoolError::InvalidAuthorization);
    }
    let fee: u64 = amount * pool.fee_percent / 100;
    let charge: u64 = amount + fee;
    match transfer(caller_balance, pool_balance, charge) {
        Ok(()) => {},
        Err(e) => {
            return Err(e);
        },
    }
    pool.reward_amount = pool.reward_amount + fee;
    state.amount = amount;
    state.status = Status::DepositPending;
    Ok(())
}

/// Confirms a pending deposit: the supplied amount is validated against the
/// recorded one, and the position returns to idle with its amount reset —
/// the reset itself is unconditional, not a function of the passed value.
pub fn deposit_confirm(pool: &Pool, state: &mut State, caller: Principal, amount: u64) -> (r:
    Result<(), PoolError>)
    ensures
        r is Ok <==> deposit_confirm_authorized(*pool, *old(state), caller, amount),
        r is Ok ==> *final(state) == confirmed_state(*old(state)),
        r is Err ==> r == Err::<(), PoolError>(PoolError::InvalidAuthorization) && *final(state)
            == *old(state),
        state_wf(*old(state)) ==> state_wf(*final(state)),
{
    if state.pool == pool.rand && state.owner == caller && state.status == Status::DepositPending
        && state.amount == amount {
        state.amount = 0;
        state.status = Status::Idle;
        Ok(())
    } else {
        Err(PoolError::InvalidAuthorization)
    }
}

/// Approves a withdrawal of `amount` on a position of this pool. Only the
/// pool owner may; no check is made against the pool's actual spendable
/// balance at this point.
pub fn withdraw_confirm(pool: &Pool, state: &mut State, caller: Principal, amount: u64) -> (r:
    Result<(), PoolError>)
    ensures
        r is Ok <==> withdraw_confirm_authorized(*pool, *old(state), caller),
        r is Ok ==> *final(state) == withdraw_approved_state(*old(state), amount),
        r is Err ==> r == Err::<(), PoolError>(PoolError::InvalidAuthorization) && *final(state)
            == *old(state),
        state_wf(*old(state)) ==> state_wf(*final(state)),
{
    if caller == pool.owner && state.pool == pool.rand {
        state.amount = amount;
        state.status = Status::WithdrawApproved;
        Ok(())
    } else {
        Err(PoolError::InvalidAuthorization)
    }
}

/// Pays an approved withdrawal of `amount` from the pool to the caller and
/// returns the position to idle. Blocked while the maintenance lock is set;
/// if the transfer fails, the position is not mutated.
pub fn withdraw(
    pool: &Pool,
    state: &mut State,
    caller: Principal,
    caller_balance: &mut u64,
    pool_balance: &mut u64,
    amount: u64,
) -> (r: Result<(), PoolError>)
    requires
        withdraw_outcome(*pool, *old(state), *old(pool_balance), caller, amount) is Ok ==> *old(caller_balance) + amount <= u64::MAX,
    ensures
        r == withdraw_outcome(*pool, *old(state), *old(pool_balance), caller, amount),
        r is Ok ==> *final(state) == confirmed_state(*old(state)) && *final(pool_balance) == *old(pool_balance) - amount && *final(caller_balance) == *old(caller_balance) + amount,
        r is Err ==> *final(state) == *old(state) && *final(caller_balance) == *old(caller_balance)
            && *final(pool_balance) == *old(pool_balance),
        state_wf(*old(state)) ==> state_wf(*final(state)),
{
    if !(state.pool == pool.rand && state.owner == caller && state.status
        == Status::WithdrawApproved) {
        return Err(PoolError::InvalidAuthorization);
    }
    if pool.init {
        return Err(PoolError::InactiveOperationBlocked);
    }
    match transfer(pool_balance, caller_balance, amount) {
        Ok(()) => {},
        Err(e) => {
            return Err(e);
        },
    }
    state.amount = 0;
    state.status = Status::Idle;
    Ok(())
}

/// Pays a reward claim of `amount` from the pool to the caller. The owner
/// branch requires the maintenance lock clear and bounds the amount by the
/// reward balance, which it decrements; the delegate branch transfers
/// unconditionally, bounded by nothing but the pool's native balance. A
/// caller holding both roles is paid by both branches; any failure leaves
/// every record and balance untouched.
pub fn claim(
    pool: &mut Pool,
    caller: Principal,
    caller_balance: &mut u64,
    pool_balance: &mut u64,
    amount: u64,
) -> (r: Result<(), PoolError>)
    requires
        claim_outcome(*old(pool), *old(pool_balance), caller, amount) is Ok ==> *old(caller_balance) + claim_debit(*old(pool), caller, amount) <= u64::MAX,
    ensures
        r == claim_outcome(*old(pool), *old(pool_balance), caller, amount),
        r is Ok ==> *final(pool) == claim_post_pool(*old(pool), caller, amount) && *final(pool_balance) == *old(pool_balance) - claim_debit(*old(pool), caller, amount) && *final(caller_balance)
            == *old(caller_balance) + claim_debit(*old(pool), caller, amount),
        r is Err ==> *final(pool) == *old(pool) && *final(caller_balance) == *old(caller_balance)
            && *final(pool_balance) == *old(pool_balance),
{
    let is_owner = caller == pool.owner;
    let is_delegate = caller == pool.token;
    if !(is_owner || is_delegate) {
        return Err(PoolError::InvalidAuthorization);
    }
    if is_owner {
        if pool.init {
            return Err(PoolError::InactiveOperationBlocked);
        }
        if amount > pool.reward_amount {
            return Err(PoolError::InsufficientFunds);
        }
    }
    let mut debit: u64 = 0;
    if is_owner {
        debit = amount;
    }
    if is_delegate {
        if debit > u64::MAX - amount {
            // Both branches pay and their sum exceeds any possible pool
            // balance, so the claim is short of funds whatever the pool holds.
            return Err(PoolError::InsufficientFunds);
        }
        debit = debit + amount;
    }
    match transfer(pool_balance, caller_balance, debit) {
        Ok(()) => {},
        Err(e) => {
            return Err(e);
        },
    }
    if is_owner {
        pool.reward_amount = pool.reward_amount - amount;
    }
    Ok(())
}

// ---------------------------------------------------------------------------
// Delegated-spend setup
// ---------------------------------------------------------------------------

/// A delegated-spend pre-authorization, ready to hand to the external token
/// subsystem: it allows `delegate` to move up to `amount` of `authority`'s
/// token-denominated balance, distinct from the native-currency ledger.
#[derive(Clone, Copy, PartialEq, Eq, Structural, Debug)]
pub struct SetInstruction {
    /// The token account holder issuing the capability.
    pub authority: Principal,
    /// The principal being pre-authorized to spend.
    pub delegate: Principal,
    /// The spending cap being granted.
    pub amount: u64,
}

/// Validates and issues a delegated-spend pre-authorization: the caller must
/// be the pool owner and must control the token account being delegated.
/// No `Pool` or `State` field is touched.
pub fn setinst(
    pool: &Pool,
    caller: Principal,
    token_owner: Principal,
    delegate: Principal,
    amount: u64,
) -> (r: Result<SetInstruction, PoolError>)
    ensures
        r is Ok <==> admin_authorized(*pool, caller) && token_owner == caller,
        r is Ok ==> r == Ok::<SetInstruction, PoolError>(
            SetInstruction { authority: caller, delegate, amount },
        ),
        r is Err ==> r == Err::<SetInstruction, PoolError>(PoolError::InvalidAuthorization),
{
    if caller == pool.owner && token_owner == caller {
        Ok(SetInstruction { authority: caller, delegate, amount })
    } else {
        Err(PoolError::InvalidAuthorization)
    }
}

/// Maps the external token collaborator's verdict on a pre-authorization:
/// a rejection propagates as `DelegationFailed`, and in either case no
/// ledger state is touched.
pub fn delegation_result(accepted: bool) -> (r: Result<(), PoolError>)
    ensures
        r is Ok <==> accepted,
        r is Err ==> r == Err::<(), PoolError>(PoolError::DelegationFailed),
{
    if accepted {
        Ok(())
    } else {
        Err(PoolError::DelegationFailed)
    }
}

} // verus!
