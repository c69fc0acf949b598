//! Solvency preservation: every operation that starts from a solvent vault
//! leaves it solvent. For the debiting operations this holds by
//! construction, because `del_token` re-validates the invariant; for the
//! deposits it holds because floor rounding never mints more shares than the
//! assets credited.

use vstd::prelude::*;

use crate::operations::{spec_deposit_assets, spec_deposit_assets_with_fee, spec_fee_on};
use crate::processor::{DepositAccounts, RedeemSharesAccounts, UpdateRewardAccounts};
use crate::rules::base::{
    base_deposit_assets, base_deposit_assets_with_fee, base_process_slash, base_redeem_shares,
    base_update_reward,
};
use crate::rules::base_processor::{
    base_process_deposit, base_process_redeem_shares, base_process_update_reward,
};
use crate::rules::props::SolvencyInvariant;
use crate::state::{lemma_convert_assets_to_shares_le, Vault};

verus! {

/// A solvent vault stays solvent across `vault_deposit_assets`.
pub proof fn rule_solvency_deposit_assets(v: Vault, amount: u64)
    ensures
        base_deposit_assets::<SolvencyInvariant>(v, amount),
{
    if spec_deposit_assets(v, amount) is Ok && v.shares <= v.assets {
        lemma_convert_assets_to_shares_le(v, amount);
    }
}

/// A solvent vault stays solvent across `vault_deposit_assets_with_fee`.
pub proof fn rule_solvency_deposit_assets_with_fee(v: Vault, amount: u64)
    ensures
        base_deposit_assets_with_fee::<SolvencyInvariant>(v, amount),
{
    if spec_deposit_assets_with_fee(v, amount) is Ok && v.shares <= v.assets {
        let net = (amount - spec_fee_on(v, amount) as u64) as u64;
        lemma_convert_assets_to_shares_le(v, net);
    }
}

/// A solvent vault stays solvent across `vault_redeem_shares`: the final
/// debit re-validates the invariant.
pub proof fn rule_solvency_redeem_shares(v: Vault, amount: u64)
    ensures
        base_redeem_shares::<SolvencyInvariant>(v, amount),
{
}

/// A solvent vault stays solvent across `vault_update_reward`: the asset
/// side only grows.
pub proof fn rule_solvency_update_reward(v: Vault, amount: u64)
    ensures
        base_update_reward::<SolvencyInvariant>(v, amount),
{
}

/// A solvent vault stays solvent across `vault_process_slash`: the debit
/// re-validates the invariant.
pub proof fn rule_solvency_slash(v: Vault, amount: u64)
    ensures
        base_process_slash::<SolvencyInvariant>(v, amount),
{
}

/// Solvency holds across the deposit instruction too.
pub proof fn rule_solvency_process_deposit(v: Vault, accs: DepositAccounts, amount: u64)
    ensures
        base_process_deposit::<SolvencyInvariant>(v, accs, amount),
{
    rule_solvency_deposit_assets(v, amount);
}

/// Solvency holds across the redemption instruction.
pub proof fn rule_solvency_process_redeem_shares(
    v: Vault,
    accs: RedeemSharesAccounts,
    amount: u64,
)
    ensures
        base_process_redeem_shares::<SolvencyInvariant>(v, accs, amount),
{
    rule_solvency_redeem_shares(v, amount);
}

/// Solvency holds across the reward-update instruction.
pub proof fn rule_solvency_process_update_reward(
    v: Vault,
    accs: UpdateRewardAccounts,
    custody_amount: u64,
)
    ensures
        base_process_update_reward::<SolvencyInvariant>(v, accs, custody_amount),
{
    rule_solvency_update_reward(v, custody_amount);
}

} // verus!
