//! Fixed-point math: multiply-divide with floor or ceiling rounding, and the
//! basis-points fee model built on top of it.
//!
//! Both `mul_div_floor` and `mul_div_ceil` compute through a 128-bit
//! intermediate, so the only failure modes are a zero divisor and a result
//! that does not fit in 64 bits.

use vstd::arithmetic::div_mod::{
    lemma_div_is_ordered, lemma_div_multiples_vanish, lemma_div_pos_is_pos,
    lemma_fundamental_div_mod, lemma_mod_division_less_than_divisor,
};
use vstd::arithmetic::mul::{lemma_mul_inequality, lemma_mul_is_commutative};
use vstd::prelude::*;

use crate::errors::{VaultError, VaultResult};

verus! {

/// One whole, expressed in basis points (1/10000 units).
pub const ONE_IN_BPS: u64 = 10_000u64;

/// `floor(a * b / c)` over unbounded integers, with the failure modes of the
/// executable `mul_div_floor`: a zero divisor or a result above `u64::MAX`.
pub open spec fn spec_mul_div_floor(a: u64, b: u64, c: u64) -> VaultResult<u64> {
    if c == 0 {
        Err(VaultError::MathOverflow)
    } else if a * b / (c as int) > u64::MAX {
        Err(VaultError::MathOverflow)
    } else {
        Ok((a * b / (c as int)) as u64)
    }
}

/// `ceil(a * b / c)` over unbounded integers, with the same failure modes.
pub open spec fn spec_mul_div_ceil(a: u64, b: u64, c: u64) -> VaultResult<u64> {
    if c == 0 {
        Err(VaultError::MathOverflow)
    } else if (a * b + c - 1) / (c as int) > u64::MAX {
        Err(VaultError::MathOverflow)
    } else {
        Ok(((a * b + c - 1) / (c as int)) as u64)
    }
}

/// Computes `floor(a * b / c)` exactly, through a 128-bit intermediate.
pub fn mul_div_floor(a: u64, b: u64, c: u64) -> (r: VaultResult<u64>)
    ensures
        r == spec_mul_div_floor(a, b, c),
{
    if c == 0 {
        return Err(VaultError::MathOverflow);
    }
    proof {
        assert((a as int) * (b as int) < 0x1_0000_0000_0000_0000_0000_0000_0000_0000int)
            by (nonlinear_arith);
    }
    let prod: u128 = (a as u128) * (b as u128);
    let q: u128 = prod / (c as u128);
    if q > u64::MAX as u128 {
        Err(VaultError::MathOverflow)
    } else {
        Ok(q as u64)
    }
}

/// Computes `ceil(a * b / c)` exactly, through a 128-bit intermediate.
pub fn mul_div_ceil(a: u64, b: u64, c: u64) -> (r: VaultResult<u64>)
    ensures
        r == spec_mul_div_ceil(a, b, c),
{
    if c == 0 {
        return Err(VaultError::MathOverflow);
    }
    proof {
        assert((a as int) * (b as int) + c < 0x1_0000_0000_0000_0000_0000_0000_0000_0000int)
            by (nonlinear_arith);
    }
    let prod: u128 = (a as u128) * (b as u128);
    let q: u128 = (prod + (c as u128 - 1)) / (c as u128);
    if q > u64::MAX as u128 {
        Err(VaultError::MathOverflow)
    } else {
        Ok(q as u64)
    }
}

/// Floor rounding is exact: a successful `mul_div_floor` returns the unique
/// `q` with `q * c <= a * b < (q + 1) * c`, it fails exactly when the divisor
/// is zero or the true quotient exceeds 64 bits.
pub proof fn lemma_mul_div_floor_correct(a: u64, b: u64, c: u64)
    ensures
        c == 0 ==> spec_mul_div_floor(a, b, c) == Err::<u64, VaultError>(VaultError::MathOverflow),
        spec_mul_div_floor(a, b, c) matches Ok(q) ==> q * c <= a * b < (q + 1) * c,
        c != 0 ==> (spec_mul_div_floor(a, b, c) is Ok <==> a * b / (c as int) <= u64::MAX),
{
    if c != 0 && a * b / (c as int) <= u64::MAX {
        let p = (a as int) * (b as int);
        let q = p / (c as int);
        lemma_fundamental_div_mod(p, c as int);
        lemma_mod_division_less_than_divisor(p, c as int);
        lemma_mul_is_commutative(q, c as int);
        assert((q + 1) * c == q * c + c) by (nonlinear_arith);
    }
}

/// Ceiling rounding is the dual: a successful `mul_div_ceil` returns the
/// unique `q` with `a * b <= q * c < a * b + c`.
pub proof fn lemma_mul_div_ceil_correct(a: u64, b: u64, c: u64)
    ensures
        c == 0 ==> spec_mul_div_ceil(a, b, c) == Err::<u64, VaultError>(VaultError::MathOverflow),
        spec_mul_div_ceil(a, b, c) matches Ok(q) ==> a * b <= q * c && q * c < a * b + c,
        c != 0 ==> (spec_mul_div_ceil(a, b, c) is Ok <==> (a * b + c - 1) / (c as int) <= u64::MAX),
{
    if c != 0 && (a * b + c - 1) / (c as int) <= u64::MAX {
        let p = (a as int) * (b as int) + c - 1;
        let q = p / (c as int);
        lemma_fundamental_div_mod(p, c as int);
        lemma_mod_division_less_than_divisor(p, c as int);
        lemma_mul_is_commutative(q, c as int);
    }
}

/// A gross amount split into the part kept and the fee taken.
pub struct GrossAmount {
    pub net_amount: u64,
    pub fee: u64,
}

/// A fee rate in basis points, constructed only from values at most
/// `ONE_IN_BPS` (100%).
pub struct FeeBps(u64);

/// A floor-rounded fee never exceeds the amount it is assessed on, because
/// the rate is at most one whole.
pub proof fn lemma_fee_le_amount(amt: u64, bps: u64)
    requires
        bps <= ONE_IN_BPS,
    ensures
        0 <= amt * bps / (ONE_IN_BPS as int) <= amt,
{
    lemma_mul_inequality(bps as int, ONE_IN_BPS as int, amt as int);
    lemma_mul_is_commutative(bps as int, amt as int);
    lemma_mul_is_commutative(ONE_IN_BPS as int, amt as int);
    lemma_div_is_ordered(amt * bps, amt * (ONE_IN_BPS as int), ONE_IN_BPS as int);
    lemma_div_multiples_vanish(amt as int, ONE_IN_BPS as int);
    lemma_div_pos_is_pos(amt * bps, ONE_IN_BPS as int);
}

/// A ceiling-rounded fee never exceeds the amount either: the numerator stays
/// strictly below `(amt + 1) * ONE_IN_BPS`.
proof fn lemma_fee_ceil_le_amount(amt: u64, bps: u64)
    requires
        bps <= ONE_IN_BPS,
    ensures
        0 <= (amt * bps + ONE_IN_BPS - 1) / (ONE_IN_BPS as int) <= amt,
{
    lemma_mul_inequality(bps as int, ONE_IN_BPS as int, amt as int);
    lemma_mul_is_commutative(bps as int, amt as int);
    lemma_mul_is_commutative(ONE_IN_BPS as int, amt as int);
    assert(amt * (ONE_IN_BPS as int) + ONE_IN_BPS - 1 == (ONE_IN_BPS as int) * amt + ONE_IN_BPS
        - 1) by (nonlinear_arith);
    lemma_div_is_ordered(
        amt * bps + ONE_IN_BPS - 1,
        (ONE_IN_BPS as int) * amt + ONE_IN_BPS - 1,
        ONE_IN_BPS as int,
    );
    lemma_fundamental_div_mod((ONE_IN_BPS as int) * amt + ONE_IN_BPS - 1, ONE_IN_BPS as int);
    lemma_mod_division_less_than_divisor((ONE_IN_BPS as int) * amt + ONE_IN_BPS - 1,
        ONE_IN_BPS as int);
    let q = ((ONE_IN_BPS as int) * amt + ONE_IN_BPS - 1) / (ONE_IN_BPS as int);
    assert(q <= amt) by (nonlinear_arith)
        requires
            (ONE_IN_BPS as int) * amt + ONE_IN_BPS - 1 == (ONE_IN_BPS as int) * q + ((
            ONE_IN_BPS as int) * amt + ONE_IN_BPS - 1) % (ONE_IN_BPS as int),
            0 <= ((ONE_IN_BPS as int) * amt + ONE_IN_BPS - 1) % (ONE_IN_BPS as int) < (
            ONE_IN_BPS as int),
    ;
    lemma_div_pos_is_pos(amt * bps + ONE_IN_BPS - 1, ONE_IN_BPS as int);
}

impl FeeBps {
    /// The rate this value carries, in basis points.
    pub closed spec fn bps(self) -> u64 {
        self.0
    }

    #[verifier::type_invariant]
    closed spec fn wf(self) -> bool {
        self.0 <= ONE_IN_BPS
    }

    /// Fallible construction: any value above 100% is rejected.
    pub fn try_from(value: u64) -> (r: VaultResult<FeeBps>)
        ensures
            value <= ONE_IN_BPS ==> (r matches Ok(f) && f.bps() == value),
            value > ONE_IN_BPS ==> r == Err::<FeeBps, VaultError>(VaultError::GuardFail),
    {
        if value <= ONE_IN_BPS {
            Ok(FeeBps(value))
        } else {
            Err(VaultError::GuardFail)
        }
    }

    /// Splits `amt` into a floor-rounded fee and the remaining net amount.
    /// Never fails: the fee cannot exceed `amt`, so neither rounding nor the
    /// subtraction can leave the 64-bit range.
    pub fn apply(&self, amt: u64) -> (r: VaultResult<GrossAmount>)
        ensures
            r matches Ok(g) && g.fee == amt * self.bps() / (ONE_IN_BPS as int) && g.net_amount
                == amt - g.fee && g.fee <= amt,
    {
        proof {
            use_type_invariant(self);
            lemma_fee_le_amount(amt, self.0);
        }
        let fee = match mul_div_floor(amt, self.0, ONE_IN_BPS) {
            Ok(f) => f,
            Err(e) => {
                return Err(e);
            },
        };
        if fee > amt {
            return Err(VaultError::MathOverflow);
        }
        Ok(GrossAmount { net_amount: amt - fee, fee })
    }

    /// Splits `amt` like `apply`, but rounds the fee up, bounding it from the
    /// other direction. Never fails either.
    pub fn apply_ceil(&self, amt: u64) -> (r: VaultResult<GrossAmount>)
        ensures
            r matches Ok(g) && g.fee == (amt * self.bps() + ONE_IN_BPS - 1) / (ONE_IN_BPS as int)
                && g.net_amount == amt - g.fee && g.fee <= amt,
    {
        proof {
            use_type_invariant(self);
            lemma_fee_ceil_le_amount(amt, self.0);
        }
        let fee = match mul_div_ceil(amt, self.0, ONE_IN_BPS) {
            Ok(f) => f,
            Err(e) => {
                return Err(e);
            },
        };
        if fee > amt {
            return Err(VaultError::MathOverflow);
        }
        Ok(GrossAmount { net_amount: amt - fee, fee })
    }
}

} // verus!
