use vault::instruction::CertoraVaultInstruction;
use vault::processor::{
    process_collect_fee, process_deposit, process_redeem_shares, process_slash,
    process_update_reward, CollectFeeAccounts, DepositAccounts, RedeemSharesAccounts,
    SlashAccounts, UpdateRewardAccounts,
};
use vault::state::{AccountId, Vault};
use vault::VaultError;

fn id(n: u64) -> AccountId {
    AccountId { w0: n, w1: 0, w2: 0, w3: 0 }
}

fn wired_vault() -> Vault {
    Vault {
        admin: id(1),
        shares_mint: id(2),
        assets_mint: id(3),
        shares: 100,
        assets: 100,
        fee_bps: 500,
        fee_amount: 0,
        fee_token_account: id(4),
        vault_assets_account: id(5),
        vault_assets_account_bump: 0,
    }
}

fn deposit_accounts() -> DepositAccounts {
    DepositAccounts {
        vault_assets_account: id(5),
        assets_mint: id(3),
        shares_mint: id(2),
        user_assets_account: id(6),
        user_shares_account: id(7),
    }
}

#[test]
fn process_deposit_runs_with_matching_accounts() {
    let mut vault = wired_vault();
    let effect = process_deposit(&mut vault, &deposit_accounts(), 50).unwrap();
    assert_eq!(effect.shares_to_user, 50);
    assert_eq!(effect.assets_to_vault, 50);
    assert_eq!(vault.num_shares(), 150);
    assert_eq!(vault.num_assets(), 150);
}

#[test]
fn process_deposit_rejects_wrong_mint() {
    let mut vault = wired_vault();
    let mut accs = deposit_accounts();
    accs.assets_mint = id(9);
    let r = process_deposit(&mut vault, &accs, 50);
    assert!(matches!(r, Err(VaultError::GuardFail)));
    assert_eq!(vault.num_shares(), 100);
}

#[test]
fn process_deposit_rejects_self_transfer() {
    let mut vault = wired_vault();
    let mut accs = deposit_accounts();
    accs.user_assets_account = id(5);
    let r = process_deposit(&mut vault, &accs, 50);
    assert!(matches!(r, Err(VaultError::GuardFail)));
}

#[test]
fn process_redeem_runs_with_matching_accounts() {
    let mut vault = wired_vault();
    let accs = RedeemSharesAccounts {
        vault_assets_account: id(5),
        assets_mint: id(3),
        shares_mint: id(2),
        user_shares_account: id(7),
        user_assets_account: id(6),
    };
    let effect = process_redeem_shares(&mut vault, &accs, 40).unwrap();
    assert_eq!(effect.shares_to_burn, 40);
    assert_eq!(effect.assets_to_user, 40);
}

#[test]
fn process_collect_fee_requires_the_admin() {
    let mut vault = wired_vault();
    vault.fee_amount = 9;
    let mut accs = CollectFeeAccounts {
        vault_assets_account: id(5),
        assets_mint: id(3),
        fee_collect_account: id(8),
        authority: id(99),
    };
    let r = process_collect_fee(&mut vault, &accs);
    assert!(matches!(r, Err(VaultError::GuardFail)));
    assert_eq!(vault.fee_amount(), 9);

    accs.authority = id(1);
    let effect = process_collect_fee(&mut vault, &accs).unwrap();
    assert_eq!(effect.assets_to_user, 9);
    assert_eq!(vault.fee_amount(), 0);
}

#[test]
fn process_update_reward_reconciles_to_custody_balance() {
    let mut vault = wired_vault();
    let accs = UpdateRewardAccounts { vault_assets_account: id(5) };
    process_update_reward(&mut vault, &accs, 140).unwrap();
    assert_eq!(vault.num_assets(), 140);
    let r = process_update_reward(&mut vault, &accs, 130);
    assert!(matches!(r, Err(VaultError::MathOverflow)));
}

#[test]
fn process_slash_respects_solvency() {
    let mut vault = wired_vault();
    vault.assets = 140;
    let accs = SlashAccounts {
        vault_assets_account: id(5),
        user_token_account: id(6),
        assets_mint: id(3),
    };
    let effect = process_slash(&mut vault, &accs, 40).unwrap();
    assert_eq!(effect.assets_to_user, 40);
    assert_eq!(vault.num_assets(), 100);
    let r = process_slash(&mut vault, &accs, 1);
    assert!(matches!(r, Err(VaultError::GuardFail)));
}

#[test]
fn instruction_tags_round_trip() {
    for tag in 0u8..=2 {
        let instr = CertoraVaultInstruction::from_u8(tag).unwrap();
        assert_eq!(instr.as_u8(), tag);
    }
    assert!(CertoraVaultInstruction::from_u8(3).is_none());
    assert_eq!(CertoraVaultInstruction::Deposit.as_u8(), 1);
}
