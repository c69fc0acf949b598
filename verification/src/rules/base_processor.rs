//! The snapshot-and-check harness at the instruction level: the same
//! property types, driven through the account-validating processors instead
//! of the bare operations.

use vstd::prelude::*;

use crate::processor::{
    spec_process_deposit, spec_process_redeem_shares, spec_process_update_reward, DepositAccounts,
    RedeemSharesAccounts, UpdateRewardAccounts,
};
use crate::rules::base::{OperationParams, VaultProp};
use crate::state::Vault;

verus! {

/// The property `C` holds across the deposit instruction.
pub open spec fn base_process_deposit<C: VaultProp>(
    v: Vault,
    accs: DepositAccounts,
    amount: u64,
) -> bool {
    match spec_process_deposit(v, accs, amount) {
        Ok((v2, effect)) => C::capture(v).pre() ==> C::capture(v2).post(
            C::capture(v),
            OperationParams { amount },
            effect,
        ),
        Err(_) => true,
    }
}

/// The property `C` holds across the redemption instruction.
pub open spec fn base_process_redeem_shares<C: VaultProp>(
    v: Vault,
    accs: RedeemSharesAccounts,
    amount: u64,
) -> bool {
    match spec_process_redeem_shares(v, accs, amount) {
        Ok((v2, effect)) => C::capture(v).pre() ==> C::capture(v2).post(
            C::capture(v),
            OperationParams { amount },
            effect,
        ),
        Err(_) => true,
    }
}

/// The property `C` holds across the reward-update instruction.
pub open spec fn base_process_update_reward<C: VaultProp>(
    v: Vault,
    accs: UpdateRewardAccounts,
    custody_amount: u64,
) -> bool {
    match spec_process_update_reward(v, accs, custody_amount) {
        Ok((v2, effect)) => C::capture(v).pre() ==> C::capture(v2).post(
            C::capture(v),
            OperationParams { amount: custody_amount },
            effect,
        ),
        Err(_) => true,
    }
}

} // verus!
