use vault::operations::{
    vault_collect_fee, vault_deposit_assets, vault_deposit_assets_exact,
    vault_deposit_assets_with_fee, vault_deposit_assets_with_fee_exact, vault_process_slash,
    vault_redeem_shares, vault_update_reward, VaultEffect,
};
use vault::state::{AccountId, Vault};
use vault::VaultError;

fn new_test_vault() -> Vault {
    Vault {
        admin: AccountId::default(),
        shares_mint: AccountId::default(),
        assets_mint: AccountId::default(),
        shares: 100,
        assets: 100,
        vault_assets_account: AccountId::default(),
        vault_assets_account_bump: 0,
        fee_amount: 0,
        fee_bps: 500, // 5%
        fee_token_account: AccountId::default(),
    }
}

#[test]
fn test_vault_deposit_assets() {
    let mut vault = new_test_vault();
    let effect = vault_deposit_assets(&mut vault, 50).unwrap();
    assert_eq!(effect.shares_to_user, 50);
    assert_eq!(effect.assets_to_vault, 50);
    assert_eq!(vault.num_assets(), 150);
    assert_eq!(vault.num_shares(), 150);
}

#[test]
fn test_vault_redeem_shares() {
    let mut vault = new_test_vault();
    let effect = vault_redeem_shares(&mut vault, 40).unwrap();
    assert_eq!(effect.assets_to_user, 40);
    assert_eq!(effect.shares_to_burn, 40);
    assert_eq!(vault.num_assets(), 60);
    assert_eq!(vault.num_shares(), 60);
}

#[test]
fn test_vault_process_slash() {
    let mut vault = new_test_vault();
    let effect = vault_process_slash(&mut vault, 20);
    assert!(effect.is_err());
}

#[test]
fn test_vault_update_reward() {
    let mut vault = new_test_vault();
    let result = vault_update_reward(&mut vault, 150).unwrap();
    assert_eq!(vault.num_assets(), 150);
    assert_eq!(result, VaultEffect::default());
}

#[test]
fn deposit_with_fee_splits_net_and_fee() {
    // 5% of 1000 is 50: the net 950 buys 950 shares at 1:1.
    let mut vault = new_test_vault();
    let effect = vault_deposit_assets_with_fee(&mut vault, 1000).unwrap();
    assert_eq!(effect.assets_to_fee, 50);
    assert_eq!(effect.assets_to_vault, 950);
    assert_eq!(effect.shares_to_user, 950);
    assert_eq!(vault.num_assets(), 1050);
    assert_eq!(vault.num_shares(), 1050);
}

#[test]
fn deposit_with_fee_rejects_bad_rate() {
    let mut vault = new_test_vault();
    vault.fee_bps = 10_001;
    let before = vault;
    let r = vault_deposit_assets_with_fee(&mut vault, 1000);
    assert!(matches!(r, Err(VaultError::GuardFail)));
    assert_eq!(vault, before);
}

#[test]
fn fee_assessed_is_positive_when_rate_and_amount_allow() {
    // 1 bps on 10_000 floors to exactly 1.
    let mut vault = new_test_vault();
    vault.fee_bps = 1;
    let effect = vault_deposit_assets_with_fee(&mut vault, 10_000).unwrap();
    assert_eq!(effect.assets_to_fee, 1);
    assert!(effect.assets_to_fee <= 10_000);
}

#[test]
fn deposit_zero_amount_is_guarded() {
    let mut vault = new_test_vault();
    let r = vault_deposit_assets(&mut vault, 0);
    assert!(matches!(r, Err(VaultError::GuardFail)));
    assert_eq!(vault.num_shares(), 100);
    assert_eq!(vault.num_assets(), 100);
}

#[test]
fn deposit_overflow_is_math_error() {
    let mut vault = new_test_vault();
    vault.shares = u64::MAX;
    vault.assets = u64::MAX;
    let before = vault;
    let r = vault_deposit_assets(&mut vault, 1);
    assert!(matches!(r, Err(VaultError::MathOverflow)));
    assert_eq!(vault, before);
}

#[test]
fn redeem_more_than_outstanding_is_math_error() {
    let mut vault = new_test_vault();
    let r = vault_redeem_shares(&mut vault, 101);
    assert!(matches!(r, Err(VaultError::MathOverflow)));
    assert_eq!(vault.num_shares(), 100);
}

#[test]
fn redeem_rounds_down_for_the_vault() {
    // 10 shares backed by 25 assets: 3 shares redeem for floor(3*25/10) = 7.
    let mut vault = new_test_vault();
    vault.shares = 10;
    vault.assets = 25;
    let effect = vault_redeem_shares(&mut vault, 3).unwrap();
    assert_eq!(effect.assets_to_user, 7);
    assert_eq!(vault.num_shares(), 7);
    assert_eq!(vault.num_assets(), 18);
}

#[test]
fn update_reward_below_recorded_total_fails() {
    let mut vault = new_test_vault();
    let r = vault_update_reward(&mut vault, 99);
    assert!(matches!(r, Err(VaultError::MathOverflow)));
    assert_eq!(vault.num_assets(), 100);
}

#[test]
fn update_reward_with_unchanged_total_is_noop() {
    let mut vault = new_test_vault();
    let result = vault_update_reward(&mut vault, 100).unwrap();
    assert_eq!(result, VaultEffect::default());
    assert_eq!(vault.num_assets(), 100);
}

#[test]
fn slash_within_solvency_dilutes() {
    // 10 shares, 25 assets: slashing 12 leaves 13 assets, still solvent,
    // but the asset-per-share ratio fell from 2.5 to 1.3.
    let mut vault = new_test_vault();
    vault.shares = 10;
    vault.assets = 25;
    let effect = vault_process_slash(&mut vault, 12).unwrap();
    assert_eq!(effect.assets_to_user, 12);
    assert_eq!(vault.num_shares(), 10);
    assert_eq!(vault.num_assets(), 13);
    assert!(25 * vault.num_shares() > 10 * vault.num_assets());
}

#[test]
fn collect_fee_pays_out_and_clears() {
    let mut vault = new_test_vault();
    vault.fee_amount = 77;
    let effect = vault_collect_fee(&mut vault).unwrap();
    assert_eq!(effect.assets_to_user, 77);
    assert_eq!(vault.fee_amount(), 0);
    assert_eq!(vault.num_assets(), 100);
    assert_eq!(vault.num_shares(), 100);
}

#[test]
fn deposit_exact_records_the_round_tripped_debit() {
    // 10 shares, 25 assets: 9 assets buy floor(9*10/25) = 3 shares, and the
    // recorded debit is what 3 shares are worth: floor(3*25/10) = 7.
    let mut vault = new_test_vault();
    vault.shares = 10;
    vault.assets = 25;
    let effect = vault_deposit_assets_exact(&mut vault, 9).unwrap();
    assert_eq!(effect.shares_to_user, 3);
    assert_eq!(effect.assets_to_vault, 7);
    assert_eq!(vault.num_shares(), 13);
    assert_eq!(vault.num_assets(), 32);
}

#[test]
fn deposit_with_fee_exact_recomputes_fee_on_actual_debit() {
    // 5% fee on 1000 leaves 950 net; at 10 shares per 25 assets the net buys
    // floor(950*10/25) = 380 shares worth floor(380*25/10) = 950 assets, and
    // the fee is recomputed on that actual debit: floor(950*500/10000) = 47.
    let mut vault = new_test_vault();
    vault.shares = 10;
    vault.assets = 25;
    let effect = vault_deposit_assets_with_fee_exact(&mut vault, 1000).unwrap();
    assert_eq!(effect.shares_to_user, 380);
    assert_eq!(effect.assets_to_vault, 950);
    assert_eq!(effect.assets_to_fee, 47);
    assert_eq!(vault.num_shares(), 390);
    assert_eq!(vault.num_assets(), 975);
}

#[test]
fn round_trip_never_profits() {
    // 10 shares, 25 assets: 9 assets -> 3 shares -> 7 assets <= 9.
    let vault_in = Vault { shares: 10, assets: 25, ..new_test_vault() };
    let mut v1 = vault_in;
    let d = vault_deposit_assets(&mut v1, 9).unwrap();
    let mut v2 = v1;
    let r = vault_redeem_shares(&mut v2, d.shares_to_user).unwrap();
    assert!(r.assets_to_user <= 9);
}

#[test]
fn solvency_preserved_across_operations() {
    let mut vault = new_test_vault();
    vault.shares = 10;
    vault.assets = 25;
    assert!(vault.is_solvent());
    vault_deposit_assets(&mut vault, 9).unwrap();
    assert!(vault.is_solvent());
    vault_update_reward(&mut vault, 40).unwrap();
    assert!(vault.is_solvent());
    vault_redeem_shares(&mut vault, 5).unwrap();
    assert!(vault.is_solvent());
    vault_process_slash(&mut vault, 2).unwrap();
    assert!(vault.is_solvent());
}

#[test]
fn deposit_never_dilutes() {
    // Ratio before: 25/10. After depositing 9: 32/13 >= 25/10.
    let mut vault = new_test_vault();
    vault.shares = 10;
    vault.assets = 25;
    vault_deposit_assets(&mut vault, 9).unwrap();
    assert!(25 * vault.num_shares() <= 10 * vault.num_assets());
}

#[test]
fn deposit_is_monotonic() {
    let mut vault = new_test_vault();
    vault.shares = 10;
    vault.assets = 25;
    vault_deposit_assets(&mut vault, 9).unwrap();
    assert!(vault.num_assets() >= 25);
    assert!(vault.num_shares() >= 10);
}

#[test]
fn inflation_attack_is_unprofitable() {
    // Bob deposits 5 into a 1:1 vault, donates 10, Alice deposits 12, Bob
    // redeems his 5 shares: he gets back at most the 15 he paid in.
    let mut vault = Vault { shares: 1, assets: 1, ..new_test_vault() };
    let bob = vault_deposit_assets(&mut vault, 5).unwrap();
    assert_eq!(bob.shares_to_user, 5);
    let donated = vault.num_assets().checked_add(10).unwrap();
    vault_update_reward(&mut vault, donated).unwrap();
    let alice = vault_deposit_assets(&mut vault, 12).unwrap();
    // Alice's shares round down against the inflated price.
    assert_eq!(alice.shares_to_user, 12 * 6 / 16);
    let out = vault_redeem_shares(&mut vault, bob.shares_to_user).unwrap();
    assert!(out.assets_to_user <= 5 + 10);
}

#[test]
fn inflation_attack_can_zero_out_a_small_deposit() {
    // With shares == assets == 1 and a large donation, a later small deposit
    // rounds down to zero shares and is rejected by the zero-mint guard.
    let mut vault = Vault { shares: 1, assets: 1, ..new_test_vault() };
    vault_update_reward(&mut vault, 1000).unwrap();
    let r = vault_deposit_assets(&mut vault, 500);
    assert!(matches!(r, Err(VaultError::GuardFail)));
}

#[test]
fn round_trip_loss_is_bounded_by_ceil_share_price() {
    // 3 shares backed by 10 assets: ceil price is 4. Depositing 7 buys
    // floor(7*3/10) = 2 shares, redeeming them pays floor(2*17/5) = 6;
    // the loss of 1 is within the bound.
    let mut vault = Vault { shares: 3, assets: 10, ..new_test_vault() };
    let d = vault_deposit_assets(&mut vault, 7).unwrap();
    assert_eq!(d.shares_to_user, 2);
    let r = vault_redeem_shares(&mut vault, d.shares_to_user).unwrap();
    assert_eq!(r.assets_to_user, 6);
    assert!(r.assets_to_user + 4 >= 7);
}

#[test]
fn vault_validate_requires_distinct_mints() {
    let mut vault = new_test_vault();
    assert!(vault.validate().is_err());
    vault.assets_mint = AccountId { w0: 1, w1: 0, w2: 0, w3: 0 };
    assert!(vault.validate().is_ok());
}

#[test]
fn gross_assets_adds_accrued_fee() {
    let mut vault = new_test_vault();
    vault.fee_amount = 11;
    assert_eq!(vault.gross_assets(), 111);
}

#[test]
fn fresh_vault_is_zeroed() {
    let vault = Vault::new();
    assert_eq!(vault.num_shares(), 0);
    assert_eq!(vault.num_assets(), 0);
    assert_eq!(vault.fee_amount(), 0);
    assert!(vault.is_solvent());
    assert!(vault.check_invariant().is_ok());
}
