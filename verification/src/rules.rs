//! The invariant catalogue and the harness it runs on.
//!
//! A property is a snapshot type implementing [`base::VaultProp`]: it
//! captures the fields it watches, states what must be assumed of the
//! pre-state, and states what must hold of the post-state. The generic
//! drivers in [`base`] plug any property into any operation; the remaining
//! modules prove the concrete rules.

pub mod access_control;
pub mod base;
pub mod base_processor;
pub mod fees;
pub mod integrity;
pub mod inflation_attack;
pub mod no_dilution;
pub mod props;
pub mod solvency;
pub mod vault_consistency;
