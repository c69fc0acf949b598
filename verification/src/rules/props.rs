//! The concrete property snapshots.

use vstd::prelude::*;

use crate::math::ONE_IN_BPS;
use crate::operations::VaultEffect;
use crate::rules::base::{OperationParams, VaultProp};
use crate::state::Vault;

verus! {

/// Solvency: the vault can never have more shares outstanding than assets
/// backing them. Assumed of the pre-state, checked of the post-state.
pub struct SolvencyInvariant {
    pub shares_total: int,
    pub token_total: int,
}

impl VaultProp for SolvencyInvariant {
    open spec fn capture(v: Vault) -> Self {
        SolvencyInvariant { shares_total: v.shares as int, token_total: v.assets as int }
    }

    open spec fn pre(self) -> bool {
        self.shares_total <= self.token_total
    }

    open spec fn post(self, prev: Self, params: OperationParams, effect: VaultEffect) -> bool {
        self.shares_total <= self.token_total
    }
}

/// No dilution: the asset-per-share ratio cannot decrease, stated without
/// division as `prev.assets * shares <= prev.shares * assets`.
pub struct NoDilutionProp {
    pub shares_total: int,
    pub token_total: int,
}

impl VaultProp for NoDilutionProp {
    open spec fn capture(v: Vault) -> Self {
        NoDilutionProp { shares_total: v.shares as int, token_total: v.assets as int }
    }

    open spec fn pre(self) -> bool {
        true
    }

    open spec fn post(self, prev: Self, params: OperationParams, effect: VaultEffect) -> bool {
        prev.token_total * self.shares_total <= prev.shares_total * self.token_total
    }
}

/// Fee assessment: the fee never exceeds the requested amount, and is
/// positive whenever the rate is positive and the amount is large enough for
/// the floor division to be nonzero.
pub struct FeeAssessedProp {
    pub fee_bps: int,
}

impl VaultProp for FeeAssessedProp {
    open spec fn capture(v: Vault) -> Self {
        FeeAssessedProp { fee_bps: v.fee_bps as int }
    }

    open spec fn pre(self) -> bool {
        true
    }

    open spec fn post(self, prev: Self, params: OperationParams, effect: VaultEffect) -> bool {
        effect.assets_to_fee <= params.amount && ((self.fee_bps > 0 && params.amount * self.fee_bps
            >= ONE_IN_BPS) ==> effect.assets_to_fee > 0)
    }
}

} // verus!
