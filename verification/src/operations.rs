//! Vault operations: the state transitions that compose the mutation
//! primitives and the fee model into vault-level effects.
//!
//! Every operation takes the vault by mutable reference plus an amount and
//! returns a `VaultEffect` describing how many asset and share units moved
//! and in which direction. Operations fail fast: any failure returns a typed
//! error and leaves the record exactly as it was. Each executable operation
//! is pinned to a specification-level transition function, so the laws over
//! the transitions carry over to the code.

use vstd::prelude::*;

use crate::errors::{VaultError, VaultResult};
use crate::math::ONE_IN_BPS;
use crate::state::{
    spec_add_token, spec_burn_shares, spec_convert_assets_to_shares,
    spec_convert_shares_to_assets, spec_del_token, spec_mint_shares, Vault,
};

verus! {

/// An ephemeral, operation-scoped result: how many units move, and where.
#[derive(Clone, Copy, Debug, PartialEq, Eq, Structural)]
pub struct VaultEffect {
    pub shares_to_burn: u64,
    pub shares_to_user: u64,
    pub assets_to_vault: u64,
    pub assets_to_user: u64,
    pub assets_to_fee: u64,
}

impl VaultEffect {
    /// The all-zero effect: nothing moved.
    pub open spec fn spec_default() -> VaultEffect {
        VaultEffect {
            shares_to_burn: 0,
            shares_to_user: 0,
            assets_to_vault: 0,
            assets_to_user: 0,
            assets_to_fee: 0,
        }
    }
}

impl Default for VaultEffect {
    /// The all-zero effect.
    fn default() -> (r: VaultEffect)
        ensures
            r == VaultEffect::spec_default(),
    {
        VaultEffect {
            shares_to_burn: 0,
            shares_to_user: 0,
            assets_to_vault: 0,
            assets_to_user: 0,
            assets_to_fee: 0,
        }
    }
}

/// The transition of `vault_deposit_assets`: convert the deposit to shares,
/// mint them, credit the assets.
pub open spec fn spec_deposit_assets(v: Vault, tkn_amt: u64) -> VaultResult<(Vault, VaultEffect)> {
    match spec_convert_assets_to_shares(v, tkn_amt) {
        Err(e) => Err(e),
        Ok(shares_to_user) => match spec_mint_shares(v, shares_to_user) {
            Err(e) => Err(e),
            Ok(v1) => match spec_add_token(v1, tkn_amt) {
                Err(e) => Err(e),
                Ok(v2) => Ok(
                    (
                        v2,
                        VaultEffect {
                            shares_to_burn: 0,
                            shares_to_user,
                            assets_to_vault: tkn_amt,
                            assets_to_user: 0,
                            assets_to_fee: 0,
                        },
                    ),
                ),
            },
        },
    }
}

/// The floor-rounded fee assessed by the vault's recorded rate.
pub open spec fn spec_fee_on(v: Vault, amt: u64) -> int {
    amt * v.fee_bps / (ONE_IN_BPS as int)
}

/// The transition of `vault_deposit_assets_with_fee`: split the deposit into
/// fee and net amount, then deposit the net amount.
pub open spec fn spec_deposit_assets_with_fee(v: Vault, tkn_amt: u64) -> VaultResult<
    (Vault, VaultEffect),
> {
    if v.fee_bps > ONE_IN_BPS {
        Err(VaultError::GuardFail)
    } else {
        let fee = spec_fee_on(v, tkn_amt) as u64;
        let net = (tkn_amt - fee) as u64;
        match spec_convert_assets_to_shares(v, net) {
            Err(e) => Err(e),
            Ok(shares_to_user) => match spec_mint_shares(v, shares_to_user) {
                Err(e) => Err(e),
                Ok(v1) => match spec_add_token(v1, net) {
                    Err(e) => Err(e),
                    Ok(v2) => Ok(
                        (
                            v2,
                            VaultEffect {
                                shares_to_burn: 0,
                                shares_to_user,
                                assets_to_vault: net,
                                assets_to_user: 0,
                                assets_to_fee: fee,
                            },
                        ),
                    ),
                },
            },
        }
    }
}

/// The transition of `vault_redeem_shares`: convert the shares to assets,
/// burn the shares, debit the assets (re-validating solvency).
pub open spec fn spec_redeem_shares(v: Vault, shares_amt: u64) -> VaultResult<
    (Vault, VaultEffect),
> {
    match spec_convert_shares_to_assets(v, shares_amt) {
        Err(e) => Err(e),
        Ok(assets_to_user) => match spec_burn_shares(v, shares_amt) {
            Err(e) => Err(e),
            Ok(v1) => match spec_del_token(v1, assets_to_user) {
                Err(e) => Err(e),
                Ok(v2) => Ok(
                    (
                        v2,
                        VaultEffect {
                            shares_to_burn: shares_amt,
                            shares_to_user: 0,
                            assets_to_vault: 0,
                            assets_to_user,
                            assets_to_fee: 0,
                        },
                    ),
                ),
            },
        },
    }
}

/// The transition of `vault_update_reward`: raise the recorded assets to the
/// externally observed total. A target below the recorded total fails; an
/// unchanged total is a harmless no-op.
pub open spec fn spec_update_reward(v: Vault, new_amt: u64) -> VaultResult<(Vault, VaultEffect)> {
    if new_amt < v.assets {
        Err(VaultError::MathOverflow)
    } else {
        Ok((Vault { assets: new_amt, ..v }, VaultEffect::spec_default()))
    }
}

/// The transition of `vault_process_slash`: debit assets with no matching
/// share reduction, subject to `del_token`'s solvency re-check.
pub open spec fn spec_vault_process_slash(v: Vault, slash_amt: u64) -> VaultResult<
    (Vault, VaultEffect),
> {
    match spec_del_token(v, slash_amt) {
        Err(e) => Err(e),
        Ok(v2) => Ok(
            (
                v2,
                VaultEffect {
                    shares_to_burn: 0,
                    shares_to_user: 0,
                    assets_to_vault: 0,
                    assets_to_user: slash_amt,
                    assets_to_fee: 0,
                },
            ),
        ),
    }
}

/// The transition of `vault_collect_fee`: pay out the accrued fee and reset
/// the accrual to zero. Pure bookkeeping; never fails.
pub open spec fn spec_collect_fee(v: Vault) -> (Vault, VaultEffect) {
    (
        Vault { fee_amount: 0, ..v },
        VaultEffect {
            shares_to_burn: 0,
            shares_to_user: 0,
            assets_to_vault: 0,
            assets_to_user: v.fee_amount,
            assets_to_fee: 0,
        },
    )
}

/// The transition of `vault_deposit_assets_exact`: compute candidate shares
/// from the requested amount, then recompute the actual asset debit by
/// converting the shares back, closing the rounding loop so the recorded
/// debit matches exactly what minted the shares.
pub open spec fn spec_deposit_assets_exact(v: Vault, tkn_amt: u64) -> VaultResult<
    (Vault, VaultEffect),
> {
    match spec_convert_assets_to_shares(v, tkn_amt) {
        Err(e) => Err(e),
        Ok(shares_to_user) => match spec_convert_shares_to_assets(v, shares_to_user) {
            Err(e) => Err(e),
            Ok(assets_to_vault) => match spec_mint_shares(v, shares_to_user) {
                Err(e) => Err(e),
                Ok(v1) => match spec_add_token(v1, assets_to_vault) {
                    Err(e) => Err(e),
                    Ok(v2) => Ok(
                        (
                            v2,
                            VaultEffect {
                                shares_to_burn: 0,
                                shares_to_user,
                                assets_to_vault,
                                assets_to_user: 0,
                                assets_to_fee: 0,
                            },
                        ),
                    ),
                },
            },
        },
    }
}

/// The transition of `vault_deposit_assets_with_fee_exact`: assess the
/// maximum possible fee on the requested amount, close the rounding loop on
/// the net amount, then recompute the fee on the actual debit.
pub open spec fn spec_deposit_assets_with_fee_exact(v: Vault, tkn_amt: u64) -> VaultResult<
    (Vault, VaultEffect),
> {
    if v.fee_bps > ONE_IN_BPS {
        Err(VaultError::GuardFail)
    } else {
        let net = (tkn_amt - spec_fee_on(v, tkn_amt)) as u64;
        match spec_convert_assets_to_shares(v, net) {
            Err(e) => Err(e),
            Ok(shares_to_user) => match spec_convert_shares_to_assets(v, shares_to_user) {
                Err(e) => Err(e),
                Ok(assets_to_vault) => match spec_mint_shares(v, shares_to_user) {
                    Err(e) => Err(e),
                    Ok(v1) => match spec_add_token(v1, assets_to_vault) {
                        Err(e) => Err(e),
                        Ok(v2) => Ok(
                            (
                                v2,
                                VaultEffect {
                                    shares_to_burn: 0,
                                    shares_to_user,
                                    assets_to_vault,
                                    assets_to_user: 0,
                                    assets_to_fee: spec_fee_on(v, assets_to_vault) as u64,
                                },
                            ),
                        ),
                    },
                },
            },
        }
    }
}

/// Deposits `tkn_amt` assets; the depositor is owed the shares they convert
/// to at the current rate.
pub fn vault_deposit_assets(vault: &mut Vault, tkn_amt: u64) -> (r: VaultResult<VaultEffect>)
    ensures
        match r {
            Ok(eff) => spec_deposit_assets(*old(vault), tkn_amt) == Ok::<_, VaultError>(
                (*final(vault), eff),
            ),
            Err(e) => spec_deposit_assets(*old(vault), tkn_amt) == Err::<(Vault, VaultEffect), _>(
                e,
            ) && *final(vault) == *old(vault),
        },
{
    let shares_to_user = match vault.convert_assets_to_shares(tkn_amt) {
        Ok(s) => s,
        Err(e) => {
            return Err(e);
        },
    };
    // A failed operation must leave the record untouched, so both mutations
    // are checked, in the order they fire, before either is applied.
    if shares_to_user == 0 {
        return Err(VaultError::GuardFail);
    }
    if vault.num_shares() > u64::MAX - shares_to_user {
        return Err(VaultError::MathOverflow);
    }
    if tkn_amt == 0 {
        return Err(VaultError::GuardFail);
    }
    if vault.num_assets() > u64::MAX - tkn_amt {
        return Err(VaultError::MathOverflow);
    }
    match vault.mint_shares(shares_to_user) {
        Ok(_) => (),
        Err(e) => {
            return Err(e);
        },
    }
    match vault.add_token(tkn_amt) {
        Ok(_) => (),
        Err(e) => {
            return Err(e);
        },
    }
    Ok(
        VaultEffect {
            shares_to_burn: 0,
            shares_to_user,
            assets_to_vault: tkn_amt,
            assets_to_user: 0,
            assets_to_fee: 0,
        },
    )
}

/// Deposits `tkn_amt` assets after splitting off the vault's fee; only the
/// net amount buys shares and enters the pool.
pub fn vault_deposit_assets_with_fee(vault: &mut Vault, tkn_amt: u64) -> (r: VaultResult<
    VaultEffect,
>)
    ensures
        match r {
            Ok(eff) => spec_deposit_assets_with_fee(*old(vault), tkn_amt) == Ok::<_, VaultError>(
                (*final(vault), eff),
            ),
            Err(e) => spec_deposit_assets_with_fee(*old(vault), tkn_amt) == Err::<
                (Vault, VaultEffect),
                _,
            >(e) && *final(vault) == *old(vault),
        },
{
    let fee_bps = match vault.fee_in_bps() {
        Ok(f) => f,
        Err(e) => {
            return Err(e);
        },
    };
    let gross = match fee_bps.apply(tkn_amt) {
        Ok(g) => g,
        Err(e) => {
            return Err(e);
        },
    };
    let shares_to_user = match vault.convert_assets_to_shares(gross.net_amount) {
        Ok(s) => s,
        Err(e) => {
            return Err(e);
        },
    };
    // Pre-flight both mutations so that a failure leaves the record as it was.
    if shares_to_user == 0 {
        return Err(VaultError::GuardFail);
    }
    if vault.num_shares() > u64::MAX - shares_to_user {
        return Err(VaultError::MathOverflow);
    }
    if gross.net_amount == 0 {
        return Err(VaultError::GuardFail);
    }
    if vault.num_assets() > u64::MAX - gross.net_amount {
        return Err(VaultError::MathOverflow);
    }
    match vault.mint_shares(shares_to_user) {
        Ok(_) => (),
        Err(e) => {
            return Err(e);
        },
    }
    match vault.add_token(gross.net_amount) {
        Ok(_) => (),
        Err(e) => {
            return Err(e);
        },
    }
    Ok(
        VaultEffect {
            shares_to_burn: 0,
            shares_to_user,
            assets_to_vault: gross.net_amount,
            assets_to_user: 0,
            assets_to_fee: gross.fee,
        },
    )
}

/// Redeems `shares_amt` shares for the assets they are currently worth; the
/// shares are burned and the assets debited, re-validating solvency.
pub fn vault_redeem_shares(vault: &mut Vault, shares_amt: u64) -> (r: VaultResult<VaultEffect>)
    ensures
        match r {
            Ok(eff) => spec_redeem_shares(*old(vault), shares_amt) == Ok::<_, VaultError>(
                (*final(vault), eff),
            ),
            Err(e) => spec_redeem_shares(*old(vault), shares_amt) == Err::<(Vault, VaultEffect), _>(
                e,
            ) && *final(vault) == *old(vault),
        },
{
    let assets_to_user = match vault.convert_shares_to_assets(shares_amt) {
        Ok(a) => a,
        Err(e) => {
            return Err(e);
        },
    };
    // Pre-flight both mutations so that a failure leaves the record as it was.
    if shares_amt > vault.num_shares() {
        return Err(VaultError::MathOverflow);
    }
    if assets_to_user > vault.num_assets() {
        return Err(VaultError::MathOverflow);
    }
    if vault.num_shares() - shares_amt > vault.num_assets() - assets_to_user {
        return Err(VaultError::GuardFail);
    }
    match vault.burn_shares(shares_amt) {
        Ok(_) => (),
        Err(e) => {
            return Err(e);
        },
    }
    match vault.del_token(assets_to_user) {
        Ok(_) => (),
        Err(e) => {
            return Err(e);
        },
    }
    Ok(
        VaultEffect {
            shares_to_burn: shares_amt,
            shares_to_user: 0,
            assets_to_vault: 0,
            assets_to_user,
            assets_to_fee: 0,
        },
    )
}

/// Raises the recorded assets to `new_amt`, the externally observed custody
/// balance; the difference is a reward credited to all share holders. A
/// target below the recorded total fails; an unchanged total is a no-op.
pub fn vault_update_reward(vault: &mut Vault, new_amt: u64) -> (r: VaultResult<VaultEffect>)
    ensures
        match r {
            Ok(eff) => spec_update_reward(*old(vault), new_amt) == Ok::<_, VaultError>(
                (*final(vault), eff),
            ),
            Err(e) => spec_update_reward(*old(vault), new_amt) == Err::<(Vault, VaultEffect), _>(
                e,
            ) && *final(vault) == *old(vault),
        },
{
    if new_amt < vault.num_assets() {
        return Err(VaultError::MathOverflow);
    }
    let reward = new_amt - vault.num_assets();
    if reward > 0 {
        match vault.add_token(reward) {
            Ok(_) => (),
            Err(e) => {
                return Err(e);
            },
        }
    }
    Ok(VaultEffect::default())
}

/// Removes `slash_amt` assets from the pool for loss socialization; the one
/// operation that deliberately dilutes the remaining holders, still subject
/// to the solvency re-check.
pub fn vault_process_slash(vault: &mut Vault, slash_amt: u64) -> (r: VaultResult<VaultEffect>)
    ensures
        match r {
            Ok(eff) => spec_vault_process_slash(*old(vault), slash_amt) == Ok::<_, VaultError>(
                (*final(vault), eff),
            ),
            Err(e) => spec_vault_process_slash(*old(vault), slash_amt) == Err::<(Vault, VaultEffect), _>(
                e,
            ) && *final(vault) == *old(vault),
        },
{
    match vault.del_token(slash_amt) {
        Ok(_) => (),
        Err(e) => {
            return Err(e);
        },
    }
    Ok(
        VaultEffect {
            shares_to_burn: 0,
            shares_to_user: 0,
            assets_to_vault: 0,
            assets_to_user: slash_amt,
            assets_to_fee: 0,
        },
    )
}

/// Pays out the accrued fee and resets the accrual; pure bookkeeping.
pub fn vault_collect_fee(vault: &mut Vault) -> (r: VaultResult<VaultEffect>)
    ensures
        r matches Ok(eff) && spec_collect_fee(*old(vault)) == (*final(vault), eff),
{
    let fee_amount = vault.fee_amount();
    vault.clear_fee_amount();
    Ok(
        VaultEffect {
            shares_to_burn: 0,
            shares_to_user: 0,
            assets_to_vault: 0,
            assets_to_user: fee_amount,
            assets_to_fee: 0,
        },
    )
}

/// Deposits with the rounding loop closed: the shares are computed from the
/// requested amount, and the recorded debit is what those shares are worth.
pub fn vault_deposit_assets_exact(vault: &mut Vault, tkn_amt: u64) -> (r: VaultResult<VaultEffect>)
    ensures
        match r {
            Ok(eff) => spec_deposit_assets_exact(*old(vault), tkn_amt) == Ok::<_, VaultError>(
                (*final(vault), eff),
            ),
            Err(e) => spec_deposit_assets_exact(*old(vault), tkn_amt) == Err::<
                (Vault, VaultEffect),
                _,
            >(e) && *final(vault) == *old(vault),
        },
{
    let shares_to_user = match vault.convert_assets_to_shares(tkn_amt) {
        Ok(s) => s,
        Err(e) => {
            return Err(e);
        },
    };
    let assets_to_vault = match vault.convert_shares_to_assets(shares_to_user) {
        Ok(a) => a,
        Err(e) => {
            return Err(e);
        },
    };
    // Pre-flight both mutations so that a failure leaves the record as it was.
    if shares_to_user == 0 {
        return Err(VaultError::GuardFail);
    }
    if vault.num_shares() > u64::MAX - shares_to_user {
        return Err(VaultError::MathOverflow);
    }
    if assets_to_vault == 0 {
        return Err(VaultError::GuardFail);
    }
    if vault.num_assets() > u64::MAX - assets_to_vault {
        return Err(VaultError::MathOverflow);
    }
    match vault.mint_shares(shares_to_user) {
        Ok(_) => (),
        Err(e) => {
            return Err(e);
        },
    }
    match vault.add_token(assets_to_vault) {
        Ok(_) => (),
        Err(e) => {
            return Err(e);
        },
    }
    Ok(
        VaultEffect {
            shares_to_burn: 0,
            shares_to_user,
            assets_to_vault,
            assets_to_user: 0,
            assets_to_fee: 0,
        },
    )
}

/// The fee-charging variant of the exact deposit: the maximum fee is split
/// off first, the rounding loop is closed on the net amount, and the fee
/// actually charged is recomputed on the actual debit.
pub fn vault_deposit_assets_with_fee_exact(vault: &mut Vault, tkn_amt: u64) -> (r: VaultResult<
    VaultEffect,
>)
    ensures
        match r {
            Ok(eff) => spec_deposit_assets_with_fee_exact(*old(vault), tkn_amt) == Ok::<
                _,
                VaultError,
            >((*final(vault), eff)),
            Err(e) => spec_deposit_assets_with_fee_exact(*old(vault), tkn_amt) == Err::<
                (Vault, VaultEffect),
                _,
            >(e) && *final(vault) == *old(vault),
        },
{
    let fee_bps = match vault.fee_in_bps() {
        Ok(f) => f,
        Err(e) => {
            return Err(e);
        },
    };
    // Maximum possible fee, assessed on the requested amount.
    let gross = match fee_bps.apply(tkn_amt) {
        Ok(g) => g,
        Err(e) => {
            return Err(e);
        },
    };
    let shares_to_user = match vault.convert_assets_to_shares(gross.net_amount) {
        Ok(s) => s,
        Err(e) => {
            return Err(e);
        },
    };
    let assets_to_vault = match vault.convert_shares_to_assets(shares_to_user) {
        Ok(a) => a,
        Err(e) => {
            return Err(e);
        },
    };
    // Fee recomputed on the actual debit, not the requested amount.
    let actual_gross = match fee_bps.apply(assets_to_vault) {
        Ok(g) => g,
        Err(e) => {
            return Err(e);
        },
    };
    // Pre-flight both mutations so that a failure leaves the record as it was.
    if shares_to_user == 0 {
        return Err(VaultError::GuardFail);
    }
    if vault.num_shares() > u64::MAX - shares_to_user {
        return Err(VaultError::MathOverflow);
    }
    if assets_to_vault == 0 {
        return Err(VaultError::GuardFail);
    }
    if vault.num_assets() > u64::MAX - assets_to_vault {
        return Err(VaultError::MathOverflow);
    }
    match vault.mint_shares(shares_to_user) {
        Ok(_) => (),
        Err(e) => {
            return Err(e);
        },
    }
    match vault.add_token(assets_to_vault) {
        Ok(_) => (),
        Err(e) => {
            return Err(e);
        },
    }
    Ok(
        VaultEffect {
            shares_to_burn: 0,
            shares_to_user,
            assets_to_vault,
            assets_to_user: 0,
            assets_to_fee: actual_gross.fee,
        },
    )
}

} // verus!
