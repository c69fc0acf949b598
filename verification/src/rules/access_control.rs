//! Access-control routing: a deposit only ever goes through when the
//! accounts the caller supplied are exactly the ones the vault record names.

use vstd::prelude::*;

use crate::processor::{spec_process_deposit, DepositAccounts};
use crate::state::{AccountId, Vault};

verus! {

/// The identities a deposit routes value through: what the vault record
/// names on one side, and what the caller supplied on the other.
pub struct AccessControlProcessDeposit {
    pub vault_assets_account_key: AccountId,
    pub vault_assets_mint_key: AccountId,
    pub vault_shares_mint_key: AccountId,
    pub assets_account_key: AccountId,
    pub assets_mint_key: AccountId,
    pub shares_mint_key: AccountId,
}

impl AccessControlProcessDeposit {
    /// Capture the routed identities from the vault record and the supplied
    /// accounts.
    pub open spec fn capture(v: Vault, accs: DepositAccounts) -> Self {
        AccessControlProcessDeposit {
            vault_assets_account_key: v.vault_assets_account,
            vault_assets_mint_key: v.assets_mint,
            vault_shares_mint_key: v.shares_mint,
            assets_account_key: accs.vault_assets_account,
            assets_mint_key: accs.assets_mint,
            shares_mint_key: accs.shares_mint,
        }
    }

    /// The routing invariant: every supplied identity equals the recorded
    /// one.
    pub open spec fn routed_correctly(self) -> bool {
        &&& self.vault_assets_account_key == self.assets_account_key
        &&& self.vault_assets_mint_key == self.assets_mint_key
        &&& self.vault_shares_mint_key == self.shares_mint_key
    }
}

/// After any successful deposit, the supplied custody account and mints are
/// exactly the ones the vault record names.
pub proof fn rule_access_control_process_deposit(
    v: Vault,
    accs: DepositAccounts,
    amount: u64,
)
    ensures
        spec_process_deposit(v, accs, amount) matches Ok(p) ==> AccessControlProcessDeposit::capture(
            p.0,
            accs,
        ).routed_correctly(),
{
}

} // verus!
