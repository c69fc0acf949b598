//! Fee assessment across the fee-charging deposit.

use vstd::arithmetic::div_mod::lemma_div_is_ordered;
use vstd::prelude::*;

use crate::math::{lemma_fee_le_amount, ONE_IN_BPS};
use crate::operations::{
    spec_deposit_assets_with_fee, spec_deposit_assets_with_fee_exact, spec_fee_on,
};
use crate::rules::base::base_deposit_assets_with_fee;
use crate::rules::props::FeeAssessedProp;
use crate::state::{lemma_round_trip_no_profit, Vault};

verus! {

/// `vault_deposit_assets_with_fee` assesses its fee correctly: the fee never
/// exceeds the requested amount, and it is positive whenever the rate is
/// positive and the amount is large enough for the floor division to be
/// nonzero.
pub proof fn rule_deposit_assets_with_fee_fees_assessed(v: Vault, amount: u64)
    ensures
        base_deposit_assets_with_fee::<FeeAssessedProp>(v, amount),
{
    if spec_deposit_assets_with_fee(v, amount) is Ok {
        lemma_fee_le_amount(amount, v.fee_bps);
        if v.fee_bps > 0 && amount * v.fee_bps >= ONE_IN_BPS {
            lemma_div_is_ordered(ONE_IN_BPS as int, amount * v.fee_bps, ONE_IN_BPS as int);
        }
    }
}

/// The exact variant keeps the fee bound too: the fee is recomputed on the
/// actual debit, which the closed rounding loop keeps at or below the
/// requested amount.
pub proof fn rule_deposit_assets_with_fee_exact_fee_bound(v: Vault, amount: u64)
    ensures
        spec_deposit_assets_with_fee_exact(v, amount) matches Ok(p) ==> p.1.assets_to_fee
            <= amount,
{
    if spec_deposit_assets_with_fee_exact(v, amount) is Ok {
        let net = (amount - spec_fee_on(v, amount)) as u64;
        lemma_fee_le_amount(amount, v.fee_bps);
        lemma_round_trip_no_profit(v, net);
        let p = spec_deposit_assets_with_fee_exact(v, amount)->Ok_0;
        lemma_fee_le_amount(p.1.assets_to_vault, v.fee_bps);
    }
}

} // verus!
