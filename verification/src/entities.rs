//! The ledger's passive data: principals, pool and position records, and the
//! error catalog shared by every operation.

use vstd::prelude::*;

verus! {

/// A principal: an identity the caller can prove control of by signature.
///
/// The hosting environment performs the cryptographic check; the engine only
/// ever compares principals for equality, so a principal is modeled by its
/// 32-byte address value, held as four 64-bit words.
#[derive(Clone, Copy, PartialEq, Eq, Structural, Debug)]
pub struct Principal {
    pub w0: u64,
    pub w1: u64,
    pub w2: u64,
    pub w3: u64,
}

/// The phase of a position within the two-phase deposit/withdraw protocol.
#[derive(Clone, Copy, PartialEq, Eq, Structural, Debug)]
pub enum Status {
    /// No transfer in flight; the recorded amount is reset to zero.
    Idle,
    /// A deposit has been recorded and awaits confirmation.
    DepositPending,
    /// The pool owner has approved a withdrawal of the recorded amount.
    WithdrawApproved,
}

/// A shared escrow pool record, one per market.
#[derive(Clone, Copy, PartialEq, Eq, Structural, Debug)]
pub struct Pool {
    /// The principal authorized to administer the pool and claim accrued fees.
    pub owner: Principal,
    /// The token delegate: a second principal with unrestricted claim rights,
    /// authorized to reconfigure the delegate itself and the lock flag.
    pub token: Principal,
    /// The seed the pool's address was deterministically derived from.
    /// Immutable after creation; it doubles as the pool's identity, and a
    /// position references its pool through it.
    pub rand: Principal,
    /// Integer fee rate in percentage points, applied to every deposit.
    pub fee_percent: u64,
    /// Accumulated fee revenue, claimable by the owner.
    pub reward_amount: u64,
    /// Maintenance lock: while true, claim (owner branch) and withdraw are
    /// disabled.
    pub init: bool,
}

/// A per-depositor position record, one per depositor and pool.
#[derive(Clone, Copy, PartialEq, Eq, Structural, Debug)]
pub struct State {
    /// The depositing principal.
    pub owner: Principal,
    /// The identity of the owning pool (its derivation seed), immutable
    /// after creation.
    pub pool: Principal,
    /// The principal amount currently in flight; meaningful only while the
    /// status is not `Idle`.
    pub amount: u64,
    /// The current phase of the position.
    pub status: Status,
}

/// A position is well formed when its recorded amount has been reset along
/// with its status: whenever the position is idle, the amount is zero.
pub open spec fn state_wf(state: State) -> bool {
    state.status is Idle ==> state.amount == 0
}

/// The error kinds an operation can abort with. A failing operation applies
/// no mutation at all.
#[derive(Clone, Copy, PartialEq, Eq, Structural, Debug)]
pub enum PoolError {
    /// A caller-identity or entity-field predicate failed.
    InvalidAuthorization,
    /// A transfer source balance was too low, or an owner claim exceeded the
    /// pool's reward balance.
    InsufficientFunds,
    /// The pool's maintenance lock was set while the operation requires it
    /// clear.
    InactiveOperationBlocked,
    /// The external token-delegation collaborator rejected a
    /// pre-authorization.
    DelegationFailed,
    /// The hosting environment's balance-movement primitive faulted for a
    /// reason outside the caller's control.
    TransferFailed,
}

} // verus!
