//! Inflation-attack bounds.
//!
//! The classic attack: an early depositor donates assets directly to the
//! pool to inflate the share price, hoping either to profit when redeeming
//! or to wipe out a later depositor. The rules here bound both sides:
//! the attacker can never net a profit from the donation, and an honest
//! depositor's round-trip loss is bounded by one share's price rounded up.

use vstd::arithmetic::div_mod::{lemma_fundamental_div_mod, lemma_mod_division_less_than_divisor};
use vstd::prelude::*;

use crate::operations::{
    spec_deposit_assets, spec_redeem_shares, spec_update_reward, VaultEffect,
};
use crate::state::Vault;

verus! {

/// The current price of one share, rounded up; zero for a vault with no
/// shares outstanding.
pub open spec fn spec_share_price_ceil(v: Vault) -> int {
    if v.shares == 0 {
        0
    } else {
        (v.assets + v.shares - 1) / (v.shares as int)
    }
}

/// An attacker cannot profit from donating: starting from a 1:1 vault, Bob
/// buys shares, donates to inflate the price, Alice buys in, and Bob redeems
/// everything he holds. What Bob gets back never exceeds what he paid in.
pub proof fn rule_inflation_attack(
    v0: Vault,
    bob_deposit: u64,
    bob_donate: u64,
    alice_deposit: u64,
    v1: Vault,
    e1: VaultEffect,
    v2: Vault,
    v3: Vault,
    e4: VaultEffect,
)
    requires
        v0.shares == v0.assets,
        v0.shares >= 1,
        spec_deposit_assets(v0, bob_deposit) matches Ok(p) && p == (v1, e1),
        v1.assets + bob_donate <= u64::MAX,
        spec_update_reward(v1, (v1.assets + bob_donate) as u64) matches Ok(p) && p.0 == v2,
        spec_deposit_assets(v2, alice_deposit) matches Ok(p) && p.0 == v3,
        spec_redeem_shares(v3, e1.shares_to_user) matches Ok(p) && p.1 == e4,
    ensures
        e4.assets_to_user <= bob_deposit + bob_donate,
{
    let n = v0.shares as int;
    let d = bob_deposit as int;
    let k = bob_donate as int;
    let m = alice_deposit as int;
    // Bob bought at 1:1, so he holds exactly `d` shares and `d >= 1`.
    assert(e1.shares_to_user == bob_deposit && d >= 1);
    assert(v1.shares == n + d && v1.assets == n + d);
    let p_tot = n + d;
    assert(v2.shares == p_tot && v2.assets == p_tot + k);
    if k == 0 {
        // No donation: the vault stays 1:1 throughout, and Bob's redeem
        // returns exactly his deposit.
        assert(v3.shares == v3.assets);
        assert(e4.assets_to_user == d);
    } else {
        // Alice's shares are floor-valued at the inflated price.
        let s_a = (m * p_tot) / (p_tot + k);
        lemma_fundamental_div_mod(m * p_tot, p_tot + k);
        lemma_mod_division_less_than_divisor(m * p_tot, p_tot + k);
        assert(v3.shares == p_tot + s_a && v3.assets == p_tot + k + m && s_a >= 1);
        let s3 = p_tot + s_a;
        let a3 = p_tot + k + m;
        if v3.shares == v3.assets {
            assert(e4.assets_to_user == d);
        } else {
            // Bob's payout is floor-valued against the post-Alice state.
            let a_out = (d * a3) / s3;
            lemma_fundamental_div_mod(d * a3, s3);
            lemma_mod_division_less_than_divisor(d * a3, s3);
            assert(e4.assets_to_user == a_out);
            // The whole bound, scaled by `p_tot` to clear the first floor:
            // d * a3 * p_tot stays below (d + k + 1) * s3 * p_tot.
            let r1 = (m * p_tot) % (p_tot + k);
            assert(m * p_tot <= (p_tot + k) * s_a + (p_tot + k) - 1);
            assert(d * a3 * p_tot == d * p_tot * (p_tot + k) + d * (m * p_tot))
                by (nonlinear_arith)
                requires
                    a3 == p_tot + k + m,
            ;
            assert(d * (m * p_tot) <= d * ((p_tot + k) * s_a + (p_tot + k) - 1))
                by (nonlinear_arith)
                requires
                    m * p_tot <= (p_tot + k) * s_a + (p_tot + k) - 1,
                    d >= 0,
            ;
            assert(d * p_tot * (p_tot + k) + d * ((p_tot + k) * s_a + (p_tot + k) - 1) == d * (
            p_tot + k) * s3 + d * (p_tot + k) - d) by (nonlinear_arith)
                requires
                    s3 == p_tot + s_a,
            ;
            // Since Bob holds less than the whole pool (n >= 1), the
            // remaining claims absorb at least a whole share price.
            assert((d + k + 1) * p_tot * s3 - d * (p_tot + k) * s3 == s3 * (p_tot * (k + 1) - d
                * k)) by (nonlinear_arith);
            assert(p_tot * (k + 1) - d * k >= p_tot + k) by (nonlinear_arith)
                requires
                    d <= p_tot - 1,
                    k >= 0,
                    p_tot >= 1,
            ;
            assert(s3 * (p_tot * (k + 1) - d * k) >= s3 * (p_tot + k)) by (nonlinear_arith)
                requires
                    p_tot * (k + 1) - d * k >= p_tot + k,
                    s3 >= 0,
            ;
            assert(d * (p_tot + k) - d < s3 * (p_tot + k)) by (nonlinear_arith)
                requires
                    d < s3,
                    p_tot + k >= 1,
                    d >= 0,
            ;
            assert(d * a3 * p_tot < (d + k + 1) * p_tot * s3);
            assert(d * a3 < (d + k + 1) * s3) by (nonlinear_arith)
                requires
                    d * a3 * p_tot < (d + k + 1) * p_tot * s3,
                    p_tot >= 1,
            ;
            assert(a_out <= d + k) by (nonlinear_arith)
                requires
                    d * a3 == s3 * a_out + (d * a3) % s3,
                    0 <= (d * a3) % s3,
                    d * a3 < (d + k + 1) * s3,
                    s3 >= 1,
            ;
        }
    }
}

/// A depositor's round-trip loss is bounded: depositing and immediately
/// redeeming everything never profits, and never loses more than the price
/// of one share rounded up (the worst possible rounding adversity).
pub proof fn rule_inflation_max_loss(
    v0: Vault,
    alice_deposit: u64,
    v1: Vault,
    e1: VaultEffect,
    e2: VaultEffect,
)
    requires
        v0.shares <= v0.assets,
        spec_deposit_assets(v0, alice_deposit) matches Ok(p) && p == (v1, e1),
        spec_redeem_shares(v1, e1.shares_to_user) matches Ok(p) && p.1 == e2,
    ensures
        e2.assets_to_user <= alice_deposit,
        e2.assets_to_user + spec_share_price_ceil(v0) >= alice_deposit,
{
    let s = v0.shares as int;
    let a = v0.assets as int;
    let m = alice_deposit as int;
    if v0.shares == v0.assets {
        // 1:1 both ways: the round trip is exact.
        assert(e1.shares_to_user == alice_deposit);
        assert(v1.shares == v1.assets);
        assert(e2.assets_to_user == m);
    } else {
        // Solvent and unequal: more assets than shares.
        let s_a = (m * s) / a;
        lemma_fundamental_div_mod(m * s, a);
        lemma_mod_division_less_than_divisor(m * s, a);
        assert(e1.shares_to_user == s_a && s_a >= 1);
        assert(s >= 1) by (nonlinear_arith)
            requires
                s_a >= 1,
                m * s == a * s_a + (m * s) % a,
                0 <= (m * s) % a,
                a >= 1,
                m >= 0,
                s >= 0,
        ;
        assert(v1.shares == s + s_a && v1.assets == a + m);
        let s1 = s + s_a;
        let a1 = a + m;
        // Alice's shares were floor-valued, so they never claim more of the
        // pool than she paid for: s_a * a <= m * s.
        assert(s_a * a <= m * s) by (nonlinear_arith)
            requires
                m * s == a * s_a + (m * s) % a,
                0 <= (m * s) % a,
        ;
        // The ceiling share price c satisfies c * s >= a.
        let c = spec_share_price_ceil(v0);
        lemma_fundamental_div_mod(a + s - 1, s);
        lemma_mod_division_less_than_divisor(a + s - 1, s);
        assert(c * s >= a) by (nonlinear_arith)
            requires
                a + s - 1 == s * c + (a + s - 1) % s,
                0 <= (a + s - 1) % s < s,
        ;
        if v1.shares == v1.assets {
            // Infeasible: equality would mean Alice got more shares than the
            // floor allows.
            assert(false) by (nonlinear_arith)
                requires
                    s + s_a == a + m,
                    s_a * a <= m * s,
                    a >= s + 1,
                    s >= 0,
                    m >= 0,
                    s_a >= 1,
            ;
        } else {
            let out = (s_a * a1) / s1;
            lemma_fundamental_div_mod(s_a * a1, s1);
            lemma_mod_division_less_than_divisor(s_a * a1, s1);
            assert(e2.assets_to_user == out);
            // Non-profit: out * s1 <= s_a * a1 <= m * s1.
            assert(s_a * a1 <= m * s1) by (nonlinear_arith)
                requires
                    a1 == a + m,
                    s1 == s + s_a,
                    s_a * a <= m * s,
            ;
            assert(out <= m) by (nonlinear_arith)
                requires
                    s_a * a1 == s1 * out + (s_a * a1) % s1,
                    0 <= (s_a * a1) % s1,
                    s_a * a1 <= m * s1,
                    s1 >= 1,
            ;
            // Bounded loss, scaled by s * s1 to clear both floors.
            assert(out * s * s1 >= s_a * a1 * s - (s1 - 1) * s) by (nonlinear_arith)
                requires
                    s_a * a1 == s1 * out + (s_a * a1) % s1,
                    (s_a * a1) % s1 <= s1 - 1,
                    s >= 0,
            ;
            // The pool's price per share only rises with the deposit.
            assert(a1 * s >= a * s1) by (nonlinear_arith)
                requires
                    a1 == a + m,
                    s1 == s + s_a,
                    s_a * a <= m * s,
            ;
            assert(s_a * a1 * s >= s_a * a * s1) by (nonlinear_arith)
                requires
                    a1 * s >= a * s1,
                    s_a >= 0,
            ;
            assert(s_a * a >= m * s - a + 1) by (nonlinear_arith)
                requires
                    m * s == a * s_a + (m * s) % a,
                    (m * s) % a <= a - 1,
            ;
            assert(s_a * a * s1 >= (m * s - a + 1) * s1) by (nonlinear_arith)
                requires
                    s_a * a >= m * s - a + 1,
                    s1 >= 0,
            ;
            assert(c * s * s1 >= a * s1) by (nonlinear_arith)
                requires
                    c * s >= a,
                    s1 >= 0,
            ;
            assert(out * s * s1 + c * s * s1 > (m - 1) * s * s1) by (nonlinear_arith)
                requires
                    out * s * s1 >= s_a * a1 * s - (s1 - 1) * s,
                    s_a * a1 * s >= s_a * a * s1,
                    s_a * a * s1 >= (m * s - a + 1) * s1,
                    c * s >= a,
                    c * s * s1 >= a * s1,
                    s >= 1,
                    s1 >= 1,
            ;
            assert(out + c >= m) by (nonlinear_arith)
                requires
                    out * s * s1 + c * s * s1 > (m - 1) * s * s1,
                    s >= 1,
                    s1 >= 1,
            ;
        }
    }
}

} // verus!
