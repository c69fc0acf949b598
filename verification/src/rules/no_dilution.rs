//! No dilution: across the value-neutral operations the asset-per-share
//! ratio never decreases. Slashing is the deliberate counter-example: it is
//! allowed to dilute the remaining holders, and a concrete witness below
//! shows the rule fail on it.

use vstd::prelude::*;

use crate::operations::{
    spec_deposit_assets, spec_deposit_assets_with_fee, spec_fee_on, spec_vault_process_slash,
    spec_redeem_shares, spec_update_reward,
};
use crate::processor::{DepositAccounts, RedeemSharesAccounts, UpdateRewardAccounts};
use crate::rules::base::{
    base_deposit_assets, base_deposit_assets_with_fee, base_process_slash, base_redeem_shares,
    base_update_reward, VaultProp,
};
use crate::rules::base_processor::{
    base_process_deposit, base_process_redeem_shares, base_process_update_reward,
};
use crate::rules::props::NoDilutionProp;
use crate::state::{
    lemma_convert_assets_to_shares_bound, lemma_convert_shares_to_assets_bound,
    spec_convert_assets_to_shares, spec_convert_shares_to_assets, Vault,
};

verus! {

/// `vault_deposit_assets` never dilutes: the minted shares are floor-valued
/// at the current rate.
pub proof fn rule_no_dilution_deposit_assets(v: Vault, amount: u64)
    ensures
        base_deposit_assets::<NoDilutionProp>(v, amount),
{
    if spec_deposit_assets(v, amount) is Ok {
        lemma_convert_assets_to_shares_bound(v, amount);
        let s = spec_convert_assets_to_shares(v, amount)->Ok_0;
        assert(v.assets * (v.shares + s) <= v.shares * (v.assets + amount)) by (nonlinear_arith)
            requires
                s * v.assets <= amount * v.shares,
        ;
    }
}

/// `vault_deposit_assets_with_fee` never dilutes: only the net amount buys
/// shares, and the net amount is what enters the pool.
pub proof fn rule_no_dilution_deposit_assets_with_fee(v: Vault, amount: u64)
    ensures
        base_deposit_assets_with_fee::<NoDilutionProp>(v, amount),
{
    if spec_deposit_assets_with_fee(v, amount) is Ok {
        let net = (amount - spec_fee_on(v, amount) as u64) as u64;
        lemma_convert_assets_to_shares_bound(v, net);
        let s = spec_convert_assets_to_shares(v, net)->Ok_0;
        assert(v.assets * (v.shares + s) <= v.shares * (v.assets + net)) by (nonlinear_arith)
            requires
                s * v.assets <= net * v.shares,
        ;
    }
}

/// `vault_redeem_shares` never dilutes: the assets paid out are floor-valued
/// at the current rate.
pub proof fn rule_no_dilution_redeem_shares(v: Vault, amount: u64)
    ensures
        base_redeem_shares::<NoDilutionProp>(v, amount),
{
    if spec_redeem_shares(v, amount) is Ok {
        lemma_convert_shares_to_assets_bound(v, amount);
        let a = spec_convert_shares_to_assets(v, amount)->Ok_0;
        assert(v.assets * (v.shares - amount) <= v.shares * (v.assets - a)) by (nonlinear_arith)
            requires
                a * v.shares <= amount * v.assets,
                amount <= v.shares,
                a <= v.assets,
        ;
    }
}

/// `vault_update_reward` never dilutes: it only raises the asset side.
pub proof fn rule_no_dilution_update_reward(v: Vault, amount: u64)
    ensures
        base_update_reward::<NoDilutionProp>(v, amount),
{
    if spec_update_reward(v, amount) is Ok {
        assert(v.assets * v.shares <= v.shares * amount) by (nonlinear_arith)
            requires
                v.assets <= amount,
        ;
    }
}

/// No dilution holds across the deposit instruction too.
pub proof fn rule_no_dilution_process_deposit(v: Vault, accs: DepositAccounts, amount: u64)
    ensures
        base_process_deposit::<NoDilutionProp>(v, accs, amount),
{
    rule_no_dilution_deposit_assets(v, amount);
}

/// No dilution holds across the redemption instruction.
pub proof fn rule_no_dilution_process_redeem_shares(
    v: Vault,
    accs: RedeemSharesAccounts,
    amount: u64,
)
    ensures
        base_process_redeem_shares::<NoDilutionProp>(v, accs, amount),
{
    rule_no_dilution_redeem_shares(v, amount);
}

/// No dilution holds across the reward-update instruction.
pub proof fn rule_no_dilution_process_update_reward(
    v: Vault,
    accs: UpdateRewardAccounts,
    custody_amount: u64,
)
    ensures
        base_process_update_reward::<NoDilutionProp>(v, accs, custody_amount),
{
    rule_no_dilution_update_reward(v, custody_amount);
}

/// Slashing dilutes: a concrete witness on which the no-dilution rule fails,
/// confirming that slashing is allowed to dilute the remaining holders.
pub proof fn rule_no_dilution_process_slash_violated()
    ensures
        exists|v: Vault, amount: u64| !base_process_slash::<NoDilutionProp>(v, amount),
{
    let v = Vault { shares: 1, assets: 2, ..Vault::spec_new() };
    let v2 = Vault { shares: 1, assets: 1, ..Vault::spec_new() };
    assert(spec_vault_process_slash(v, 1) matches Ok(p) && p.0 == v2);
    assert(NoDilutionProp::capture(v).token_total == 2);
    assert(NoDilutionProp::capture(v2).token_total == 1);
    assert(!(NoDilutionProp::capture(v).token_total * NoDilutionProp::capture(v2).shares_total
        <= NoDilutionProp::capture(v).shares_total * NoDilutionProp::capture(v2).token_total));
    assert(!base_process_slash::<NoDilutionProp>(v, 1));
}

} // verus!
