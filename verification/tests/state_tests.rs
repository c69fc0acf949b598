use vault::state::{AccountId, Vault};
use vault::VaultError;

fn vault_with(shares: u64, assets: u64) -> Vault {
    Vault { shares, assets, ..Vault::new() }
}

#[test]
fn conversion_is_identity_while_totals_are_equal() {
    let v = vault_with(100, 100);
    assert_eq!(v.convert_assets_to_shares(37).unwrap(), 37);
    assert_eq!(v.convert_shares_to_assets(37).unwrap(), 37);
    // The empty vault is the 1:1 special case that avoids dividing by zero.
    let v = vault_with(0, 0);
    assert_eq!(v.convert_assets_to_shares(5).unwrap(), 5);
}

#[test]
fn conversion_floors_against_the_caller() {
    let v = vault_with(10, 25);
    assert_eq!(v.convert_assets_to_shares(9).unwrap(), 3); // floor(9*10/25)
    assert_eq!(v.convert_shares_to_assets(3).unwrap(), 7); // floor(3*25/10)
}

#[test]
fn conversion_fails_on_zero_denominator() {
    // Unequal totals with a zero denominator cannot be priced: assets price
    // against the asset total, shares against the share total.
    let v = vault_with(3, 0);
    assert!(matches!(v.convert_assets_to_shares(7), Err(VaultError::MathOverflow)));
    assert_eq!(v.convert_shares_to_assets(1).unwrap(), 0);
    let v = vault_with(0, 3);
    assert!(matches!(v.convert_shares_to_assets(1), Err(VaultError::MathOverflow)));
    assert_eq!(v.convert_assets_to_shares(7).unwrap(), 0);
}

#[test]
fn round_trip_never_exceeds_input_across_shapes() {
    for &(s, a) in &[(1u64, 1u64), (3, 10), (10, 25), (7, 7), (1, 1000), (999, 1000)] {
        let v = vault_with(s, a);
        for &x in &[0u64, 1, 2, 9, 100, 12345] {
            if let Ok(sh) = v.convert_assets_to_shares(x) {
                if let Ok(back) = v.convert_shares_to_assets(sh) {
                    assert!(back <= x, "shares {s} assets {a} input {x} got back {back}");
                }
            }
        }
    }
}

#[test]
fn mint_and_burn_enforce_their_guards() {
    let mut v = vault_with(10, 25);
    assert!(matches!(v.mint_shares(0), Err(VaultError::GuardFail)));
    assert!(matches!(v.add_token(0), Err(VaultError::GuardFail)));
    // Burning zero has no guard: a no-op by design.
    assert!(v.burn_shares(0).is_ok());
    assert_eq!(v.num_shares(), 10);
    v.mint_shares(5).unwrap();
    assert_eq!(v.num_shares(), 15);
    v.burn_shares(15).unwrap();
    assert_eq!(v.num_shares(), 0);
    assert!(matches!(v.burn_shares(1), Err(VaultError::MathOverflow)));
}

#[test]
fn del_token_revalidates_solvency() {
    let mut v = vault_with(10, 25);
    assert!(v.del_token(15).is_ok());
    assert_eq!(v.num_assets(), 10);
    assert!(matches!(v.del_token(1), Err(VaultError::GuardFail)));
    assert!(matches!(v.del_token(11), Err(VaultError::MathOverflow)));
}

#[test]
fn fee_in_bps_checks_the_recorded_rate() {
    let mut v = vault_with(0, 0);
    v.fee_bps = 10_000;
    assert!(v.fee_in_bps().is_ok());
    v.fee_bps = 10_001;
    assert!(matches!(v.fee_in_bps(), Err(VaultError::GuardFail)));
}

#[test]
fn clear_fee_amount_only_resets_the_accrual() {
    let mut v = vault_with(10, 25);
    v.fee_amount = 8;
    v.clear_fee_amount();
    assert_eq!(v.fee_amount(), 0);
    assert_eq!(v.num_shares(), 10);
    assert_eq!(v.num_assets(), 25);
}

#[test]
fn account_ids_compare_by_value() {
    let a = AccountId { w0: 1, w1: 2, w2: 3, w3: 4 };
    let b = AccountId { w0: 1, w1: 2, w2: 3, w3: 4 };
    let c = AccountId { w0: 9, ..a };
    assert_eq!(a, b);
    assert_ne!(a, c);
    assert_eq!(AccountId::default(), AccountId { w0: 0, w1: 0, w2: 0, w3: 0 });
}
