//! A shared, permissioned escrow pool ledger.
//!
//! The crate models a set of persisted balance records — one `Pool` per
//! market and one `State` (position) per depositor and pool — together with
//! the catalog of state-gated operations that move native currency between a
//! pool account and individual depositor positions: deposit, confirm,
//! withdraw approval, withdraw, reward claim, and administrative
//! reconfiguration. Every operation validates an authorization predicate over
//! the caller's proven identity before any mutation, and either commits all
//! of its effects or none of them.
//!
//! The hosting execution environment is responsible for signature
//! verification, record storage and the actual movement of native balances;
//! the engine here receives the proven caller identity and the relevant
//! records as plain values and is verified end to end.

pub mod entities;
pub mod laws;
pub mod ops;
pub mod transfer;
