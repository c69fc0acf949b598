//! A share-based custody ledger ("vault"): a pool of deposited assets and the
//! shares that represent proportional claims on that pool.
//!
//! The crate proves the ledger's arithmetic invariants: exact floor/ceil
//! fixed-point conversion, fee assessment in basis points, solvency
//! (outstanding shares never exceed backing assets), and no-dilution (the
//! asset-per-share ratio never decreases across value-neutral operations).

pub mod errors;
pub mod instruction;
pub mod math;
pub mod operations;
pub mod processor;
pub mod rules;
pub mod state;

pub use errors::{VaultError, VaultResult};
