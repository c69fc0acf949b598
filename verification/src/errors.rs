//! The error taxonomy of the vault ledger.

use vstd::prelude::*;

verus! {

/// Every fallible ledger function reports one of these.
///
/// `MathOverflow` covers any checked arithmetic over- or underflow, a
/// multiply-divide result that does not fit in 64 bits, and division by zero.
/// `GuardFail` covers a violated precondition: a fee rate above 100%, a
/// zero-amount mint or credit, a debit that would leave the vault insolvent,
/// or an account that does not match the vault record.
/// `Unspecified` is a reserved catch-all.
#[derive(Clone, Copy, Debug, PartialEq, Eq, Structural)]
pub enum VaultError {
    Unspecified,
    MathOverflow,
    GuardFail,
}

pub type VaultResult<T> = std::result::Result<T, VaultError>;

} // verus!
