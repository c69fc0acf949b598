//! Monotonicity at the instruction level: a deposit never decreases either
//! total, and for both deposit and redeem, whenever the asset total does not
//! decrease the share total does not decrease either.

use vstd::prelude::*;

use crate::processor::{
    spec_process_deposit, spec_process_redeem_shares, DepositAccounts, RedeemSharesAccounts,
};
use crate::state::{lemma_convert_shares_to_assets_ge, spec_convert_shares_to_assets, Vault};

verus! {

/// A successful deposit never decreases the asset total.
pub proof fn rule_deposit_must_increase_assets(
    v: Vault,
    accs: DepositAccounts,
    amount: u64,
)
    ensures
        spec_process_deposit(v, accs, amount) matches Ok(p) ==> p.0.assets >= v.assets,
{
}

/// A successful deposit never decreases the share total.
pub proof fn rule_deposit_must_increase_shares(
    v: Vault,
    accs: DepositAccounts,
    amount: u64,
)
    ensures
        spec_process_deposit(v, accs, amount) matches Ok(p) ==> p.0.shares >= v.shares,
{
}

/// Across a deposit, if the asset total does not decrease then neither does
/// the share total.
pub proof fn rule_deposit_assets_and_shares_monotonicity(
    v: Vault,
    accs: DepositAccounts,
    amount: u64,
)
    ensures
        spec_process_deposit(v, accs, amount) matches Ok(p) ==> (v.assets <= p.0.assets
            ==> v.shares <= p.0.shares),
{
}

/// Across a redemption from a solvent vault, if the asset total does not
/// decrease then neither does the share total: paying out nothing is only
/// possible when nothing was redeemed.
pub proof fn rule_redeem_assets_and_shares_monotonicity(
    v: Vault,
    accs: RedeemSharesAccounts,
    amount: u64,
)
    requires
        v.spec_is_solvent(),
    ensures
        spec_process_redeem_shares(v, accs, amount) matches Ok(p) ==> (v.assets <= p.0.assets
            ==> v.shares <= p.0.shares),
{
    if spec_process_redeem_shares(v, accs, amount) is Ok {
        if v.shares > 0 {
            // At a solvent rate each share redeems for at least one asset.
            lemma_convert_shares_to_assets_ge(v, amount);
        } else {
            // No shares outstanding: the conversion succeeds only on the 1:1
            // path, so the payout equals the amount redeemed.
            assert(spec_convert_shares_to_assets(v, amount) matches Ok(a) ==> a >= amount);
        }
    }
}

} // verus!
