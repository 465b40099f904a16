//! A custodial time-lock vault: a depositor locks a quantity of a fungible
//! asset until a maturity time, after which only that depositor may withdraw
//! the full amount exactly once.
//!
//! The crate is organised around a verified model of the vault ledger:
//! - [`tokens`] and [`errors`] give the asset taxonomy and the failure cases;
//! - [`records`] holds the durable per-vault record and its invariants;
//! - [`derivation`] derives the deterministic storage address of a vault
//!   from its owner's identity;
//! - [`registry`] owns the set of live records and the custody balances;
//! - [`lifecycle`] implements the two state transitions, `create_vault`
//!   and `withdraw`;
//! - [`laws`] states and proves the lifecycle guarantees that span several
//!   operations.

pub mod derivation;
pub mod errors;
pub mod laws;
pub mod lifecycle;
pub mod records;
pub mod registry;
pub mod tokens;
