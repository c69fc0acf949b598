//! The generic pre/post snapshot-and-check harness.
//!
//! For each vault operation there is a driver: a predicate over an arbitrary
//! starting vault and an arbitrary amount, saying that whenever the
//! property's precondition holds of a snapshot taken before the operation
//! and the operation succeeds, the property's postcondition holds of a
//! snapshot taken after it. Each concrete rule is a proof that a driver
//! holds for every input.

use vstd::prelude::*;

use crate::operations::{
    spec_deposit_assets, spec_deposit_assets_with_fee, spec_vault_process_slash, spec_redeem_shares,
    spec_update_reward, VaultEffect,
};
use crate::state::Vault;

verus! {

/// The operation input handed to a property check: a token or share amount,
/// depending on the operation.
pub struct OperationParams {
    pub amount: u64,
}

/// A pluggable property: a snapshot of the vault fields it watches, a
/// precondition on the pre-state, and a postcondition over both snapshots,
/// the operation's input, and its effect.
pub trait VaultProp: Sized {
    /// Capture the fields this property watches.
    spec fn capture(v: Vault) -> Self;

    /// What must be assumed of the pre-state for the scenario to be
    /// meaningful.
    spec fn pre(self) -> bool;

    /// What must hold of the post-snapshot, given the pre-snapshot, the
    /// operation input, and the effect.
    spec fn post(self, prev: Self, params: OperationParams, effect: VaultEffect) -> bool;
}

/// The property `C` holds across `vault_deposit_assets` from state `v` with
/// input `amount`.
pub open spec fn base_deposit_assets<C: VaultProp>(v: Vault, amount: u64) -> bool {
    match spec_deposit_assets(v, amount) {
        Ok((v2, effect)) => C::capture(v).pre() ==> C::capture(v2).post(
            C::capture(v),
            OperationParams { amount },
            effect,
        ),
        Err(_) => true,
    }
}

/// The property `C` holds across `vault_deposit_assets_with_fee`.
pub open spec fn base_deposit_assets_with_fee<C: VaultProp>(v: Vault, amount: u64) -> bool {
    match spec_deposit_assets_with_fee(v, amount) {
        Ok((v2, effect)) => C::capture(v).pre() ==> C::capture(v2).post(
            C::capture(v),
            OperationParams { amount },
            effect,
        ),
        Err(_) => true,
    }
}

/// The property `C` holds across `vault_redeem_shares`.
pub open spec fn base_redeem_shares<C: VaultProp>(v: Vault, amount: u64) -> bool {
    match spec_redeem_shares(v, amount) {
        Ok((v2, effect)) => C::capture(v).pre() ==> C::capture(v2).post(
            C::capture(v),
            OperationParams { amount },
            effect,
        ),
        Err(_) => true,
    }
}

/// The property `C` holds across `vault_update_reward`.
pub open spec fn base_update_reward<C: VaultProp>(v: Vault, amount: u64) -> bool {
    match spec_update_reward(v, amount) {
        Ok((v2, effect)) => C::capture(v).pre() ==> C::capture(v2).post(
            C::capture(v),
            OperationParams { amount },
            effect,
        ),
        Err(_) => true,
    }
}

/// The property `C` holds across `vault_process_slash`.
pub open spec fn base_process_slash<C: VaultProp>(v: Vault, amount: u64) -> bool {
    match spec_vault_process_slash(v, amount) {
        Ok((v2, effect)) => C::capture(v).pre() ==> C::capture(v2).post(
            C::capture(v),
            OperationParams { amount },
            effect,
        ),
        Err(_) => true,
    }
}

} // verus!
