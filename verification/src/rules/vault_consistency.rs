//! Consistency with the external balances: the vault's recorded totals stay
//! consistent with the real balance of its custody token account and the
//! real supply of its share mint, once the caller performs the token
//! movements the effect prescribes.

use vstd::prelude::*;

use crate::operations::VaultEffect;
use crate::processor::{
    spec_process_deposit, spec_process_redeem_shares, spec_process_slash,
    spec_process_update_reward, DepositAccounts, RedeemSharesAccounts, SlashAccounts,
    UpdateRewardAccounts,
};
use crate::state::Vault;

verus! {

/// The custody account's balance after the caller performs the asset
/// movements an effect prescribes.
pub open spec fn spec_custody_after(custody: int, effect: VaultEffect) -> int {
    custody + effect.assets_to_vault - effect.assets_to_user
}

/// The share mint's supply after the caller performs the mint and burn an
/// effect prescribes.
pub open spec fn spec_supply_after(supply: int, effect: VaultEffect) -> int {
    supply + effect.shares_to_user - effect.shares_to_burn
}

/// A consistency snapshot: the recorded totals beside the external ones.
pub struct VaultConsistencyInvariant {
    pub vault_assets: int,
    pub vault_shares: int,
    pub account_tokens: int,
    pub mint_shares: int,
}

impl VaultConsistencyInvariant {
    /// Capture the recorded totals and the external balances.
    pub open spec fn capture(v: Vault, custody: int, supply: int) -> Self {
        VaultConsistencyInvariant {
            vault_assets: v.assets as int,
            vault_shares: v.shares as int,
            account_tokens: custody,
            mint_shares: supply,
        }
    }

    /// The invariant: the custody account really holds what the ledger
    /// records (it may hold more, e.g. donations not yet reconciled), and
    /// the mint's supply is exactly the recorded share total.
    pub open spec fn consistent(self) -> bool {
        &&& self.vault_assets <= self.account_tokens
        &&& self.vault_shares == self.mint_shares
    }
}

/// A deposit preserves consistency: the caller moves the debit into custody
/// and mints the user's shares.
pub proof fn rule_vault_consistency_process_deposit(
    v: Vault,
    accs: DepositAccounts,
    amount: u64,
    custody: int,
    supply: int,
)
    requires
        VaultConsistencyInvariant::capture(v, custody, supply).consistent(),
    ensures
        spec_process_deposit(v, accs, amount) matches Ok(p)
            ==> VaultConsistencyInvariant::capture(
            p.0,
            spec_custody_after(custody, p.1),
            spec_supply_after(supply, p.1),
        ).consistent(),
{
}

/// A redemption preserves consistency: the caller burns the redeemed shares
/// and pays the user out of custody.
pub proof fn rule_vault_consistency_process_redeem_shares(
    v: Vault,
    accs: RedeemSharesAccounts,
    amount: u64,
    custody: int,
    supply: int,
)
    requires
        VaultConsistencyInvariant::capture(v, custody, supply).consistent(),
    ensures
        spec_process_redeem_shares(v, accs, amount) matches Ok(p)
            ==> VaultConsistencyInvariant::capture(
            p.0,
            spec_custody_after(custody, p.1),
            spec_supply_after(supply, p.1),
        ).consistent(),
{
}

/// A slash preserves consistency: the caller moves the slashed assets out of
/// custody, and no shares move.
pub proof fn rule_vault_consistency_process_slash(
    v: Vault,
    accs: SlashAccounts,
    amount: u64,
    custody: int,
    supply: int,
)
    requires
        VaultConsistencyInvariant::capture(v, custody, supply).consistent(),
    ensures
        spec_process_slash(v, accs, amount) matches Ok(p) ==> VaultConsistencyInvariant::capture(
            p.0,
            spec_custody_after(custody, p.1),
            spec_supply_after(supply, p.1),
        ).consistent(),
{
}

/// A reward update preserves consistency: the recorded total is raised to
/// the custody balance itself, and nothing moves externally.
pub proof fn rule_vault_consistency_process_update_reward(
    v: Vault,
    accs: UpdateRewardAccounts,
    custody: u64,
    supply: int,
)
    requires
        VaultConsistencyInvariant::capture(v, custody as int, supply).consistent(),
    ensures
        spec_process_update_reward(v, accs, custody) matches Ok(p)
            ==> VaultConsistencyInvariant::capture(
            p.0,
            spec_custody_after(custody as int, p.1),
            spec_supply_after(supply, p.1),
        ).consistent(),
{
}

} // verus!
