//! The vault record and its checked mutation primitives.
//!
//! `Vault` is the sole persistent entity: two 64-bit counters (`shares`,
//! `assets`) define the exchange rate, and the remaining fields identify the
//! external accounts the ledger is tied to. The mutation primitives enforce
//! non-negative deltas; `del_token` re-validates the solvency invariant, as it
//! is the only primitive that can reduce the asset side without a matching
//! share reduction.

use vstd::arithmetic::div_mod::{
    lemma_div_is_ordered, lemma_div_multiples_vanish, lemma_fundamental_div_mod,
    lemma_mod_division_less_than_divisor,
};
use vstd::arithmetic::mul::{lemma_mul_inequality, lemma_mul_is_commutative};
use vstd::prelude::*;

use crate::errors::{VaultError, VaultResult};
use crate::math::{mul_div_floor, spec_mul_div_floor, FeeBps, ONE_IN_BPS};

verus! {

/// A 256-bit external account identifier, held as four plain 64-bit words.
#[derive(Clone, Copy, Debug, PartialEq, Eq, Structural)]
pub struct AccountId {
    pub w0: u64,
    pub w1: u64,
    pub w2: u64,
    pub w3: u64,
}

impl Default for AccountId {
    /// The all-zero identifier.
    fn default() -> (r: AccountId)
        ensures
            r == AccountId::zero(),
    {
        AccountId { w0: 0, w1: 0, w2: 0, w3: 0 }
    }
}

impl AccountId {
    /// The all-zero identifier.
    pub open spec fn zero() -> AccountId {
        AccountId { w0: 0, w1: 0, w2: 0, w3: 0 }
    }
}

/// The vault record.
#[derive(Clone, Copy, Debug, PartialEq, Eq, Structural)]
pub struct Vault {
    /// Identity authorized for privileged operations (fee collection).
    pub admin: AccountId,
    /// Mint of the share token.
    pub shares_mint: AccountId,
    /// Mint of the asset token.
    pub assets_mint: AccountId,
    /// Total shares outstanding.
    pub shares: u64,
    /// Total assets recorded in the ledger.
    pub assets: u64,
    /// Fee rate in basis points; valid vaults keep it at most `ONE_IN_BPS`.
    pub fee_bps: u64,
    /// Accrued, uncollected fee.
    pub fee_amount: u64,
    /// Account that collected fees are paid to.
    pub fee_token_account: AccountId,
    /// External custody account holding the vault's real asset balance.
    pub vault_assets_account: AccountId,
    /// Derivation nonce for re-computing the custody account address.
    pub vault_assets_account_bump: u8,
}

impl Default for Vault {
    /// A zeroed vault: no shares, no assets, no fee.
    fn default() -> (r: Vault)
        ensures
            r == Vault::spec_new(),
    {
        Vault {
            admin: AccountId { w0: 0, w1: 0, w2: 0, w3: 0 },
            shares_mint: AccountId { w0: 0, w1: 0, w2: 0, w3: 0 },
            assets_mint: AccountId { w0: 0, w1: 0, w2: 0, w3: 0 },
            shares: 0,
            assets: 0,
            fee_bps: 0,
            fee_amount: 0,
            fee_token_account: AccountId { w0: 0, w1: 0, w2: 0, w3: 0 },
            vault_assets_account: AccountId { w0: 0, w1: 0, w2: 0, w3: 0 },
            vault_assets_account_bump: 0,
        }
    }
}

/// Conversion from assets to shares: 1:1 while the two totals are equal
/// (which also covers the freshly created vault, avoiding a division by
/// zero), `floor(amount * shares / assets)` otherwise.
pub open spec fn spec_convert_assets_to_shares(v: Vault, token: u64) -> VaultResult<u64> {
    if v.shares == v.assets {
        Ok(token)
    } else {
        spec_mul_div_floor(token, v.shares, v.assets)
    }
}

/// Conversion from shares to assets: the mirror of
/// `spec_convert_assets_to_shares`, `floor(shares * assets / shares_total)`.
pub open spec fn spec_convert_shares_to_assets(v: Vault, shares: u64) -> VaultResult<u64> {
    if v.shares == v.assets {
        Ok(shares)
    } else {
        spec_mul_div_floor(shares, v.assets, v.shares)
    }
}

/// `mint_shares`: credits shares; a zero amount is a guard failure, an
/// overflowing one a math failure.
pub open spec fn spec_mint_shares(v: Vault, amt: u64) -> VaultResult<Vault> {
    if amt == 0 {
        Err(VaultError::GuardFail)
    } else if v.shares + amt > u64::MAX {
        Err(VaultError::MathOverflow)
    } else {
        Ok(Vault { shares: (v.shares + amt) as u64, ..v })
    }
}

/// `burn_shares`: debits shares; only underflow fails (no zero guard).
pub open spec fn spec_burn_shares(v: Vault, amt: u64) -> VaultResult<Vault> {
    if amt > v.shares {
        Err(VaultError::MathOverflow)
    } else {
        Ok(Vault { shares: (v.shares - amt) as u64, ..v })
    }
}

/// `add_token`: credits assets; a zero amount is a guard failure, an
/// overflowing one a math failure.
pub open spec fn spec_add_token(v: Vault, amt: u64) -> VaultResult<Vault> {
    if amt == 0 {
        Err(VaultError::GuardFail)
    } else if v.assets + amt > u64::MAX {
        Err(VaultError::MathOverflow)
    } else {
        Ok(Vault { assets: (v.assets + amt) as u64, ..v })
    }
}

/// `del_token`: debits assets and then re-validates solvency; the debit
/// fails on underflow, and a debit that leaves more shares than assets is a
/// guard failure.
pub open spec fn spec_del_token(v: Vault, amt: u64) -> VaultResult<Vault> {
    if amt > v.assets {
        Err(VaultError::MathOverflow)
    } else if v.shares > v.assets - amt {
        Err(VaultError::GuardFail)
    } else {
        Ok(Vault { assets: (v.assets - amt) as u64, ..v })
    }
}

impl Vault {
    /// The zeroed vault that `new` returns.
    pub open spec fn spec_new() -> Vault {
        Vault {
            admin: AccountId::zero(),
            shares_mint: AccountId::zero(),
            assets_mint: AccountId::zero(),
            shares: 0,
            assets: 0,
            fee_bps: 0,
            fee_amount: 0,
            fee_token_account: AccountId::zero(),
            vault_assets_account: AccountId::zero(),
            vault_assets_account_bump: 0,
        }
    }

    /// A freshly created, zeroed vault.
    pub fn new() -> (r: Vault)
        ensures
            r == Vault::spec_new(),
    {
        Vault::default()
    }

    /// Total shares outstanding.
    pub fn num_shares(&self) -> (r: u64)
        ensures
            r == self.shares,
    {
        self.shares
    }

    /// Total assets recorded.
    pub fn num_assets(&self) -> (r: u64)
        ensures
            r == self.assets,
    {
        self.assets
    }

    /// The accrued, uncollected fee.
    pub fn fee_amount(&self) -> (r: u64)
        ensures
            r == self.fee_amount,
    {
        self.fee_amount
    }

    /// Resets the accrued fee to zero; everything else is untouched.
    pub fn clear_fee_amount(&mut self)
        ensures
            *final(self) == (Vault { fee_amount: 0, ..*old(self) }),
    {
        self.fee_amount = 0;
    }

    /// Recorded assets plus the accrued fee. The caller must know the sum
    /// fits; the vault's real balance backs both.
    pub fn gross_assets(&self) -> (r: u64)
        requires
            self.assets + self.fee_amount <= u64::MAX,
        ensures
            r == self.assets + self.fee_amount,
    {
        self.assets + self.fee_amount
    }

    /// The recorded fee rate as a checked `FeeBps` value; fails if the
    /// record holds a rate above 100%.
    pub fn fee_in_bps(&self) -> (r: VaultResult<FeeBps>)
        ensures
            self.fee_bps <= ONE_IN_BPS ==> (r matches Ok(f) && f.bps() == self.fee_bps),
            self.fee_bps > ONE_IN_BPS ==> r == Err::<FeeBps, VaultError>(VaultError::GuardFail),
    {
        FeeBps::try_from(self.fee_bps)
    }

    /// The solvency invariant as a predicate on the record.
    pub open spec fn spec_is_solvent(self) -> bool {
        self.shares <= self.assets
    }

    /// Solvency: the vault never has more shares outstanding than assets
    /// backing them.
    pub fn is_solvent(&self) -> (r: bool)
        ensures
            r == self.spec_is_solvent(),
    {
        self.shares <= self.assets
    }

    /// Fails with a guard error unless the vault is solvent.
    pub fn check_invariant(&self) -> (r: VaultResult<()>)
        ensures
            r is Ok <==> self.spec_is_solvent(),
            r is Err ==> r == Err::<(), VaultError>(VaultError::GuardFail),
    {
        if self.is_solvent() {
            Ok(())
        } else {
            Err(VaultError::GuardFail)
        }
    }

    /// Converts a share amount to the assets it currently redeems for.
    pub fn convert_shares_to_assets(&self, shares: u64) -> (r: VaultResult<u64>)
        ensures
            r == spec_convert_shares_to_assets(*self, shares),
    {
        if self.num_shares() == self.num_assets() {
            Ok(shares)
        } else {
            mul_div_floor(shares, self.num_assets(), self.num_shares())
        }
    }

    /// Converts an asset amount to the shares it currently buys.
    pub fn convert_assets_to_shares(&self, token: u64) -> (r: VaultResult<u64>)
        ensures
            r == spec_convert_assets_to_shares(*self, token),
    {
        if self.num_shares() == self.num_assets() {
            Ok(token)
        } else {
            mul_div_floor(token, self.num_shares(), self.num_assets())
        }
    }

    /// Debits shares. On failure the record is unchanged.
    pub fn burn_shares(&mut self, amt: u64) -> (r: VaultResult<()>)
        ensures
            match r {
                Ok(_) => spec_burn_shares(*old(self), amt) == Ok::<Vault, VaultError>(
                    *final(self),
                ),
                Err(e) => spec_burn_shares(*old(self), amt) == Err::<Vault, VaultError>(e)
                    && *final(self) == *old(self),
            },
    {
        if amt > self.shares {
            return Err(VaultError::MathOverflow);
        }
        self.shares = self.shares - amt;
        Ok(())
    }

    /// Credits shares. On failure the record is unchanged.
    pub fn mint_shares(&mut self, amt: u64) -> (r: VaultResult<()>)
        ensures
            match r {
                Ok(_) => spec_mint_shares(*old(self), amt) == Ok::<Vault, VaultError>(
                    *final(self),
                ),
                Err(e) => spec_mint_shares(*old(self), amt) == Err::<Vault, VaultError>(e)
                    && *final(self) == *old(self),
            },
    {
        if amt == 0 {
            return Err(VaultError::GuardFail);
        }
        if self.shares > u64::MAX - amt {
            return Err(VaultError::MathOverflow);
        }
        self.shares = self.shares + amt;
        Ok(())
    }

    /// Credits assets. On failure the record is unchanged.
    pub fn add_token(&mut self, amt: u64) -> (r: VaultResult<()>)
        ensures
            match r {
                Ok(_) => spec_add_token(*old(self), amt) == Ok::<Vault, VaultError>(*final(self)),
                Err(e) => spec_add_token(*old(self), amt) == Err::<Vault, VaultError>(e)
                    && *final(self) == *old(self),
            },
    {
        if amt == 0 {
            return Err(VaultError::GuardFail);
        }
        if self.assets > u64::MAX - amt {
            return Err(VaultError::MathOverflow);
        }
        self.assets = self.assets + amt;
        Ok(())
    }

    /// Debits assets, then re-validates solvency. On failure the record is
    /// unchanged.
    pub fn del_token(&mut self, amt: u64) -> (r: VaultResult<()>)
        ensures
            match r {
                Ok(_) => spec_del_token(*old(self), amt) == Ok::<Vault, VaultError>(*final(self)),
                Err(e) => spec_del_token(*old(self), amt) == Err::<Vault, VaultError>(e)
                    && *final(self) == *old(self),
            },
    {
        if amt > self.assets {
            return Err(VaultError::MathOverflow);
        }
        if self.shares > self.assets - amt {
            return Err(VaultError::GuardFail);
        }
        self.assets = self.assets - amt;
        Ok(())
    }

    /// Structural validity of the record: the two mints must differ.
    pub fn validate(&self) -> (r: VaultResult<()>)
        ensures
            r is Ok <==> self.assets_mint != self.shares_mint,
            r is Err ==> r == Err::<(), VaultError>(VaultError::GuardFail),
    {
        if self.assets_mint != self.shares_mint {
            Ok(())
        } else {
            Err(VaultError::GuardFail)
        }
    }
}

/// A successful asset-to-share conversion never over-values the deposit:
/// `s * assets <= token * shares` (with equality in the 1:1 case).
pub proof fn lemma_convert_assets_to_shares_bound(v: Vault, token: u64)
    ensures
        spec_convert_assets_to_shares(v, token) matches Ok(s) ==> s * v.assets <= token * v.shares,
{
    if v.shares == v.assets {
        assert(token * v.assets == token * v.shares) by (nonlinear_arith)
            requires
                v.shares == v.assets,
        ;
    } else if spec_convert_assets_to_shares(v, token) is Ok {
        let s = spec_convert_assets_to_shares(v, token)->Ok_0;
        lemma_fundamental_div_mod(token * v.shares, v.assets as int);
        lemma_mod_division_less_than_divisor(token * v.shares, v.assets as int);
        assert(s * v.assets <= token * v.shares) by (nonlinear_arith)
            requires
                s == (token * v.shares) / (v.assets as int),
                token * v.shares == v.assets * ((token * v.shares) / (v.assets as int)) + (token
                    * v.shares) % (v.assets as int),
                0 <= (token * v.shares) % (v.assets as int),
        ;
    }
}

/// A successful share-to-asset conversion never over-values the shares:
/// `a * shares <= shares_amt * assets` (with equality in the 1:1 case).
pub proof fn lemma_convert_shares_to_assets_bound(v: Vault, shares_amt: u64)
    ensures
        spec_convert_shares_to_assets(v, shares_amt) matches Ok(a) ==> a * v.shares <= shares_amt
            * v.assets,
{
    if v.shares == v.assets {
        assert(shares_amt * v.shares == shares_amt * v.assets) by (nonlinear_arith)
            requires
                v.shares == v.assets,
        ;
    } else if spec_convert_shares_to_assets(v, shares_amt) is Ok {
        let a = spec_convert_shares_to_assets(v, shares_amt)->Ok_0;
        lemma_fundamental_div_mod(shares_amt * v.assets, v.shares as int);
        lemma_mod_division_less_than_divisor(shares_amt * v.assets, v.shares as int);
        assert(a * v.shares <= shares_amt * v.assets) by (nonlinear_arith)
            requires
                a == (shares_amt * v.assets) / (v.shares as int),
                shares_amt * v.assets == v.shares * ((shares_amt * v.assets) / (v.shares as int)) + (
                shares_amt * v.assets) % (v.shares as int),
                0 <= (shares_amt * v.assets) % (v.shares as int),
        ;
    }
}

/// In a solvent vault a deposit never buys more shares than the assets put
/// in: floor rounding against a rate of at most one share per asset.
pub proof fn lemma_convert_assets_to_shares_le(v: Vault, token: u64)
    requires
        v.spec_is_solvent(),
    ensures
        spec_convert_assets_to_shares(v, token) matches Ok(s) ==> s <= token,
{
    if v.shares != v.assets && spec_convert_assets_to_shares(v, token) is Ok {
        lemma_mul_inequality(v.shares as int, v.assets as int, token as int);
        lemma_mul_is_commutative(v.shares as int, token as int);
        lemma_mul_is_commutative(v.assets as int, token as int);
        lemma_div_is_ordered(token * v.shares, token * v.assets, v.assets as int);
        lemma_div_multiples_vanish(token as int, v.assets as int);
    }
}

/// In a solvent vault a redemption returns at least one asset per share: the
/// rate is at least one asset per share before rounding.
pub proof fn lemma_convert_shares_to_assets_ge(v: Vault, shares_amt: u64)
    requires
        v.spec_is_solvent(),
        v.shares > 0,
    ensures
        spec_convert_shares_to_assets(v, shares_amt) matches Ok(a) ==> a >= shares_amt,
{
    if v.shares != v.assets && spec_convert_shares_to_assets(v, shares_amt) is Ok {
        lemma_mul_inequality(v.shares as int, v.assets as int, shares_amt as int);
        lemma_mul_is_commutative(v.shares as int, shares_amt as int);
        lemma_mul_is_commutative(v.assets as int, shares_amt as int);
        lemma_div_is_ordered(shares_amt * v.shares, shares_amt * v.assets, v.shares as int);
        lemma_div_multiples_vanish(shares_amt as int, v.shares as int);
    }
}

/// Round-trip non-profit: converting assets to shares and the shares back to
/// assets, against the same vault state, never returns more than was put in.
/// Floor rounding on both directions always rounds in the vault's favor.
pub proof fn lemma_round_trip_no_profit(v: Vault, x: u64)
    ensures
        spec_convert_assets_to_shares(v, x) matches Ok(s) ==> (spec_convert_shares_to_assets(v, s)
            matches Ok(a) ==> a <= x),
{
    if v.shares == v.assets {
        // 1:1 both ways: the round trip is the identity.
    } else if spec_convert_assets_to_shares(v, x) is Ok {
        let s = spec_convert_assets_to_shares(v, x)->Ok_0;
        if spec_convert_shares_to_assets(v, s) is Ok {
            let a = spec_convert_shares_to_assets(v, s)->Ok_0;
            // s = floor(x * shares / assets), so s * assets <= x * shares.
            lemma_fundamental_div_mod(x * v.shares, v.assets as int);
            lemma_mod_division_less_than_divisor(x * v.shares, v.assets as int);
            assert(s * v.assets <= x * v.shares) by (nonlinear_arith)
                requires
                    s == (x * v.shares) / (v.assets as int),
                    x * v.shares == v.assets * ((x * v.shares) / (v.assets as int)) + (x * v.shares)
                        % (v.assets as int),
                    0 <= (x * v.shares) % (v.assets as int),
            ;
            // a = floor(s * assets / shares) <= s * assets / shares <= x.
            lemma_fundamental_div_mod(s * v.assets, v.shares as int);
            lemma_mod_division_less_than_divisor(s * v.assets, v.shares as int);
            assert(a <= x) by (nonlinear_arith)
                requires
                    a == (s * v.assets) / (v.shares as int),
                    s * v.assets == v.shares * ((s * v.assets) / (v.shares as int)) + (s * v.assets)
                        % (v.shares as int),
                    0 <= (s * v.assets) % (v.shares as int),
                    s * v.assets <= x * v.shares,
                    v.shares > 0,
            ;
        }
    }
}

} // verus!
