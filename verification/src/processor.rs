//! Instruction-level processing: account validation composed with the vault
//! operations.
//!
//! Each `process_*` function takes the vault record, the identities of the
//! accounts the caller supplied, and an amount; it validates the accounts
//! against the vault record (the access-control routing), runs the
//! operation, and returns the effect that tells the caller which token
//! movements to perform. Reading account data, verifying signatures and
//! derived addresses, and performing the transfers belong to the embedding
//! program, which hands this layer plain identifiers and balances.

use vstd::prelude::*;

use crate::errors::{VaultError, VaultResult};
use crate::operations::{
    spec_collect_fee, spec_deposit_assets, spec_deposit_assets_with_fee,
    spec_deposit_assets_with_fee_exact, spec_redeem_shares,
    spec_update_reward, spec_vault_process_slash, vault_collect_fee, vault_deposit_assets, vault_deposit_assets_with_fee,
    vault_deposit_assets_with_fee_exact, vault_process_slash, vault_redeem_shares,
    vault_update_reward, VaultEffect,
};
use crate::state::{AccountId, Vault};

verus! {

/// The accounts a plain deposit names.
#[derive(Clone, Copy, Debug, PartialEq, Eq, Structural)]
pub struct DepositAccounts {
    pub vault_assets_account: AccountId,
    pub assets_mint: AccountId,
    pub shares_mint: AccountId,
    pub user_assets_account: AccountId,
    pub user_shares_account: AccountId,
}

/// The accounts a fee-charging deposit names.
#[derive(Clone, Copy, Debug, PartialEq, Eq, Structural)]
pub struct DepositWithFeeAccounts {
    pub vault_assets_account: AccountId,
    pub vault_fee_account: AccountId,
    pub assets_mint: AccountId,
    pub shares_mint: AccountId,
    pub user_assets_account: AccountId,
    pub user_shares_account: AccountId,
}

/// The accounts a redemption names.
#[derive(Clone, Copy, Debug, PartialEq, Eq, Structural)]
pub struct RedeemSharesAccounts {
    pub vault_assets_account: AccountId,
    pub assets_mint: AccountId,
    pub shares_mint: AccountId,
    pub user_shares_account: AccountId,
    pub user_assets_account: AccountId,
}

/// The accounts a fee collection names; `authority` is the signer claiming
/// the vault's admin role.
#[derive(Clone, Copy, Debug, PartialEq, Eq, Structural)]
pub struct CollectFeeAccounts {
    pub vault_assets_account: AccountId,
    pub assets_mint: AccountId,
    pub fee_collect_account: AccountId,
    pub authority: AccountId,
}

/// The accounts a reward update names.
#[derive(Clone, Copy, Debug, PartialEq, Eq, Structural)]
pub struct UpdateRewardAccounts {
    pub vault_assets_account: AccountId,
}

/// The accounts a slash names.
#[derive(Clone, Copy, Debug, PartialEq, Eq, Structural)]
pub struct SlashAccounts {
    pub vault_assets_account: AccountId,
    pub user_token_account: AccountId,
    pub assets_mint: AccountId,
}

/// Validity of the deposit accounts against the vault record: the mints and
/// the custody account must be the recorded ones, and the user must not
/// deposit out of the vault's own custody account.
pub open spec fn spec_deposit_accounts_ok(v: Vault, accs: DepositAccounts) -> bool {
    &&& accs.assets_mint == v.assets_mint
    &&& accs.shares_mint == v.shares_mint
    &&& accs.vault_assets_account == v.vault_assets_account
    &&& accs.vault_assets_account != accs.user_assets_account
}

/// Validity of the fee-deposit accounts: as for a deposit, plus the fee
/// account must be the recorded one.
pub open spec fn spec_deposit_with_fee_accounts_ok(v: Vault, accs: DepositWithFeeAccounts) -> bool {
    &&& accs.assets_mint == v.assets_mint
    &&& accs.shares_mint == v.shares_mint
    &&& accs.vault_assets_account == v.vault_assets_account
    &&& accs.vault_fee_account == v.fee_token_account
    &&& accs.vault_assets_account != accs.user_assets_account
}

/// Validity of the redemption accounts.
pub open spec fn spec_redeem_accounts_ok(v: Vault, accs: RedeemSharesAccounts) -> bool {
    &&& accs.assets_mint == v.assets_mint
    &&& accs.shares_mint == v.shares_mint
    &&& accs.vault_assets_account == v.vault_assets_account
    &&& accs.vault_assets_account != accs.user_assets_account
}

/// Validity of the fee-collection accounts: only the recorded admin may
/// collect.
pub open spec fn spec_collect_fee_accounts_ok(v: Vault, accs: CollectFeeAccounts) -> bool {
    &&& accs.assets_mint == v.assets_mint
    &&& accs.vault_assets_account == v.vault_assets_account
    &&& accs.authority == v.admin
}

/// Validity of the reward-update accounts. The instruction is otherwise
/// permissionless: anyone may reconcile the recorded total.
pub open spec fn spec_update_reward_accounts_ok(v: Vault, accs: UpdateRewardAccounts) -> bool {
    accs.vault_assets_account == v.vault_assets_account
}

/// Validity of the slash accounts.
pub open spec fn spec_slash_accounts_ok(v: Vault, accs: SlashAccounts) -> bool {
    &&& accs.assets_mint == v.assets_mint
    &&& accs.vault_assets_account == v.vault_assets_account
}

/// Checks the deposit accounts against the vault record.
pub fn check_deposit_accounts(v: &Vault, accs: &DepositAccounts) -> (r: VaultResult<()>)
    ensures
        r is Ok <==> spec_deposit_accounts_ok(*v, *accs),
        r is Err ==> r == Err::<(), VaultError>(VaultError::GuardFail),
{
    if accs.assets_mint == v.assets_mint && accs.shares_mint == v.shares_mint
        && accs.vault_assets_account == v.vault_assets_account && accs.vault_assets_account
        != accs.user_assets_account {
        Ok(())
    } else {
        Err(VaultError::GuardFail)
    }
}

/// Checks the fee-deposit accounts against the vault record.
pub fn check_deposit_with_fee_accounts(v: &Vault, accs: &DepositWithFeeAccounts) -> (r: VaultResult<
    (),
>)
    ensures
        r is Ok <==> spec_deposit_with_fee_accounts_ok(*v, *accs),
        r is Err ==> r == Err::<(), VaultError>(VaultError::GuardFail),
{
    if accs.assets_mint == v.assets_mint && accs.shares_mint == v.shares_mint
        && accs.vault_assets_account == v.vault_assets_account && accs.vault_fee_account
        == v.fee_token_account && accs.vault_assets_account != accs.user_assets_account {
        Ok(())
    } else {
        Err(VaultError::GuardFail)
    }
}

/// Checks the redemption accounts against the vault record.
pub fn check_redeem_accounts(v: &Vault, accs: &RedeemSharesAccounts) -> (r: VaultResult<()>)
    ensures
        r is Ok <==> spec_redeem_accounts_ok(*v, *accs),
        r is Err ==> r == Err::<(), VaultError>(VaultError::GuardFail),
{
    if accs.assets_mint == v.assets_mint && accs.shares_mint == v.shares_mint
        && accs.vault_assets_account == v.vault_assets_account && accs.vault_assets_account
        != accs.user_assets_account {
        Ok(())
    } else {
        Err(VaultError::GuardFail)
    }
}

/// Checks the fee-collection accounts, including the admin signature's
/// identity, against the vault record.
pub fn check_collect_fee_accounts(v: &Vault, accs: &CollectFeeAccounts) -> (r: VaultResult<()>)
    ensures
        r is Ok <==> spec_collect_fee_accounts_ok(*v, *accs),
        r is Err ==> r == Err::<(), VaultError>(VaultError::GuardFail),
{
    if accs.assets_mint == v.assets_mint && accs.vault_assets_account == v.vault_assets_account
        && accs.authority == v.admin {
        Ok(())
    } else {
        Err(VaultError::GuardFail)
    }
}

/// Checks the reward-update accounts against the vault record.
pub fn check_update_reward_accounts(v: &Vault, accs: &UpdateRewardAccounts) -> (r: VaultResult<()>)
    ensures
        r is Ok <==> spec_update_reward_accounts_ok(*v, *accs),
        r is Err ==> r == Err::<(), VaultError>(VaultError::GuardFail),
{
    if accs.vault_assets_account == v.vault_assets_account {
        Ok(())
    } else {
        Err(VaultError::GuardFail)
    }
}

/// Checks the slash accounts against the vault record.
pub fn check_slash_accounts(v: &Vault, accs: &SlashAccounts) -> (r: VaultResult<()>)
    ensures
        r is Ok <==> spec_slash_accounts_ok(*v, *accs),
        r is Err ==> r == Err::<(), VaultError>(VaultError::GuardFail),
{
    if accs.assets_mint == v.assets_mint && accs.vault_assets_account == v.vault_assets_account {
        Ok(())
    } else {
        Err(VaultError::GuardFail)
    }
}

/// The deposit instruction as a transition: reject invalid accounts, then
/// run the deposit.
pub open spec fn spec_process_deposit(v: Vault, accs: DepositAccounts, amount: u64) -> VaultResult<
    (Vault, VaultEffect),
> {
    if !spec_deposit_accounts_ok(v, accs) {
        Err(VaultError::GuardFail)
    } else {
        spec_deposit_assets(v, amount)
    }
}

/// The fee-deposit instruction as a transition.
pub open spec fn spec_process_deposit_with_fee(
    v: Vault,
    accs: DepositWithFeeAccounts,
    amount: u64,
) -> VaultResult<(Vault, VaultEffect)> {
    if !spec_deposit_with_fee_accounts_ok(v, accs) {
        Err(VaultError::GuardFail)
    } else {
        spec_deposit_assets_with_fee(v, amount)
    }
}

/// The exact fee-deposit instruction as a transition.
pub open spec fn spec_process_deposit_with_fee_exact(
    v: Vault,
    accs: DepositWithFeeAccounts,
    amount: u64,
) -> VaultResult<(Vault, VaultEffect)> {
    if !spec_deposit_with_fee_accounts_ok(v, accs) {
        Err(VaultError::GuardFail)
    } else {
        spec_deposit_assets_with_fee_exact(v, amount)
    }
}

/// The redemption instruction as a transition.
pub open spec fn spec_process_redeem_shares(
    v: Vault,
    accs: RedeemSharesAccounts,
    amount: u64,
) -> VaultResult<(Vault, VaultEffect)> {
    if !spec_redeem_accounts_ok(v, accs) {
        Err(VaultError::GuardFail)
    } else {
        spec_redeem_shares(v, amount)
    }
}

/// The fee-collection instruction as a transition.
pub open spec fn spec_process_collect_fee(v: Vault, accs: CollectFeeAccounts) -> VaultResult<
    (Vault, VaultEffect),
> {
    if !spec_collect_fee_accounts_ok(v, accs) {
        Err(VaultError::GuardFail)
    } else {
        Ok(spec_collect_fee(v))
    }
}

/// The reward-update instruction as a transition; `custody_amount` is the
/// balance the caller read from the custody account.
pub open spec fn spec_process_update_reward(
    v: Vault,
    accs: UpdateRewardAccounts,
    custody_amount: u64,
) -> VaultResult<(Vault, VaultEffect)> {
    if !spec_update_reward_accounts_ok(v, accs) {
        Err(VaultError::GuardFail)
    } else {
        spec_update_reward(v, custody_amount)
    }
}

/// The slash instruction as a transition.
pub open spec fn spec_process_slash(v: Vault, accs: SlashAccounts, amount: u64) -> VaultResult<
    (Vault, VaultEffect),
> {
    if !spec_slash_accounts_ok(v, accs) {
        Err(VaultError::GuardFail)
    } else {
        spec_vault_process_slash(v, amount)
    }
}

/// Validates the accounts and deposits `amount` assets.
pub fn process_deposit(vault: &mut Vault, accounts: &DepositAccounts, amount: u64) -> (r:
    VaultResult<VaultEffect>)
    ensures
        match r {
            Ok(eff) => spec_process_deposit(*old(vault), *accounts, amount) == Ok::<_, VaultError>(
                (*final(vault), eff),
            ),
            Err(e) => spec_process_deposit(*old(vault), *accounts, amount) == Err::<
                (Vault, VaultEffect),
                _,
            >(e) && *final(vault) == *old(vault),
        },
{
    match check_deposit_accounts(vault, accounts) {
        Ok(_) => (),
        Err(e) => {
            return Err(e);
        },
    }
    vault_deposit_assets(vault, amount)
}

/// Validates the accounts and deposits `amount` assets, charging the fee.
pub fn process_deposit_with_fee(
    vault: &mut Vault,
    accounts: &DepositWithFeeAccounts,
    amount: u64,
) -> (r: VaultResult<VaultEffect>)
    ensures
        match r {
            Ok(eff) => spec_process_deposit_with_fee(*old(vault), *accounts, amount) == Ok::<
                _,
                VaultError,
            >((*final(vault), eff)),
            Err(e) => spec_process_deposit_with_fee(*old(vault), *accounts, amount) == Err::<
                (Vault, VaultEffect),
                _,
            >(e) && *final(vault) == *old(vault),
        },
{
    match check_deposit_with_fee_accounts(vault, accounts) {
        Ok(_) => (),
        Err(e) => {
            return Err(e);
        },
    }
    vault_deposit_assets_with_fee(vault, amount)
}

/// Validates the accounts and runs the exact fee-charging deposit.
pub fn process_deposit_with_fee_exact(
    vault: &mut Vault,
    accounts: &DepositWithFeeAccounts,
    amount: u64,
) -> (r: VaultResult<VaultEffect>)
    ensures
        match r {
            Ok(eff) => spec_process_deposit_with_fee_exact(*old(vault), *accounts, amount) == Ok::<
                _,
                VaultError,
            >((*final(vault), eff)),
            Err(e) => spec_process_deposit_with_fee_exact(*old(vault), *accounts, amount) == Err::<
                (Vault, VaultEffect),
                _,
            >(e) && *final(vault) == *old(vault),
        },
{
    match check_deposit_with_fee_accounts(vault, accounts) {
        Ok(_) => (),
        Err(e) => {
            return Err(e);
        },
    }
    vault_deposit_assets_with_fee_exact(vault, amount)
}

/// Validates the accounts and redeems `amount` shares.
pub fn process_redeem_shares(
    vault: &mut Vault,
    accounts: &RedeemSharesAccounts,
    amount: u64,
) -> (r: VaultResult<VaultEffect>)
    ensures
        match r {
            Ok(eff) => spec_process_redeem_shares(*old(vault), *accounts, amount) == Ok::<
                _,
                VaultError,
            >((*final(vault), eff)),
            Err(e) => spec_process_redeem_shares(*old(vault), *accounts, amount) == Err::<
                (Vault, VaultEffect),
                _,
            >(e) && *final(vault) == *old(vault),
        },
{
    match check_redeem_accounts(vault, accounts) {
        Ok(_) => (),
        Err(e) => {
            return Err(e);
        },
    }
    vault_redeem_shares(vault, amount)
}

/// Validates the accounts (including the admin identity) and collects the
/// accrued fee.
pub fn process_collect_fee(vault: &mut Vault, accounts: &CollectFeeAccounts) -> (r: VaultResult<
    VaultEffect,
>)
    ensures
        match r {
            Ok(eff) => spec_process_collect_fee(*old(vault), *accounts) == Ok::<_, VaultError>(
                (*final(vault), eff),
            ),
            Err(e) => spec_process_collect_fee(*old(vault), *accounts) == Err::<
                (Vault, VaultEffect),
                _,
            >(e) && *final(vault) == *old(vault),
        },
{
    match check_collect_fee_accounts(vault, accounts) {
        Ok(_) => (),
        Err(e) => {
            return Err(e);
        },
    }
    vault_collect_fee(vault)
}

/// Validates the accounts and reconciles the recorded assets with the
/// custody balance the caller read.
pub fn process_update_reward(
    vault: &mut Vault,
    accounts: &UpdateRewardAccounts,
    custody_amount: u64,
) -> (r: VaultResult<VaultEffect>)
    ensures
        match r {
            Ok(eff) => spec_process_update_reward(*old(vault), *accounts, custody_amount) == Ok::<
                _,
                VaultError,
            >((*final(vault), eff)),
            Err(e) => spec_process_update_reward(*old(vault), *accounts, custody_amount) == Err::<
                (Vault, VaultEffect),
                _,
            >(e) && *final(vault) == *old(vault),
        },
{
    match check_update_reward_accounts(vault, accounts) {
        Ok(_) => (),
        Err(e) => {
            return Err(e);
        },
    }
    vault_update_reward(vault, custody_amount)
}

/// Validates the accounts and slashes `amount` assets.
pub fn process_slash(vault: &mut Vault, accounts: &SlashAccounts, amount: u64) -> (r: VaultResult<
    VaultEffect,
>)
    ensures
        match r {
            Ok(eff) => spec_process_slash(*old(vault), *accounts, amount) == Ok::<_, VaultError>(
                (*final(vault), eff),
            ),
            Err(e) => spec_process_slash(*old(vault), *accounts, amount) == Err::<
                (Vault, VaultEffect),
                _,
            >(e) && *final(vault) == *old(vault),
        },
{
    match check_slash_accounts(vault, accounts) {
        Ok(_) => (),
        Err(e) => {
            return Err(e);
        },
    }
    vault_process_slash(vault, amount)
}

} // verus!
