use vstd::prelude::*;

use crate::engine::{
    buy_rejection, buy_success_state, fee_amount, sell_rejection, sell_success_state,
    swap_out, swap_quotient,
};
use crate::errors::ClawdVaultError;
use crate::math::{lemma_fee_bounds, lemma_scaled_quotient_le, lemma_scaled_quotient_lt};
use crate::state::BondingCurve;
use vstd::arithmetic::div_mod::{
    lemma_div_by_self, lemma_div_is_ordered, lemma_div_multiples_vanish,
    lemma_fundamental_div_mod, lemma_mod_division_less_than_divisor,
};
use vstd::arithmetic::mul::{
    lemma_mul_is_commutative, lemma_mul_is_distributive_sub, lemma_mul_nonnegative,
};

verus! {

/// Constant-product preservation: a swap step conserves the product of the
/// reserves exactly up to integer-division truncation, which costs strictly
/// less than one unit of the grown reserve.
pub proof fn lemma_swap_preserves_product(r_in: int, r_out: int, amount_in: int)
    requires
        0 <= r_in,
        0 <= r_out,
        0 <= amount_in,
        0 < r_in + amount_in,
    ensures
        (r_in + amount_in) * swap_quotient(r_in, r_out, amount_in) <= r_in * r_out,
        r_in * r_out < (r_in + amount_in) * swap_quotient(r_in, r_out, amount_in) + (r_in
            + amount_in),
{
    let d = r_in + amount_in;
    let p = r_in * r_out;
    lemma_mul_nonnegative(r_in, r_out);
    lemma_fundamental_div_mod(p, d);
    lemma_mod_division_less_than_divisor(p, d);
}

/// Invariant preservation for a buy: the product of the new virtual reserves
/// equals the product of the old virtual reserves, short by strictly less
/// than one unit of the new virtual base reserve.
pub proof fn lemma_buy_preserves_invariant(s: BondingCurve, sol_amount: int, min_tokens_out: int)
    requires
        buy_rejection(s, sol_amount, min_tokens_out) is None,
        0 <= sol_amount,
    ensures
        ({
            let s1 = buy_success_state(s, sol_amount);
            let new_product = (s1.virtual_sol_reserves as int) * (s1.virtual_token_reserves as int);
            let old_product = (s.virtual_sol_reserves as int) * (s.virtual_token_reserves as int);
            &&& new_product <= old_product
            &&& old_product < new_product + s1.virtual_sol_reserves
        }),
{
    let vs = s.virtual_sol_reserves as int;
    let vt = s.virtual_token_reserves as int;
    lemma_scaled_quotient_le(vs, vt, vs + sol_amount);
    lemma_swap_preserves_product(vs, vt, sol_amount);
}

/// Invariant preservation for a sell: the product of the new virtual
/// reserves equals the product of the old virtual reserves, short by
/// strictly less than one unit of the new virtual token reserve.
pub proof fn lemma_sell_preserves_invariant(s: BondingCurve, token_amount: int, min_sol_out: int)
    requires
        sell_rejection(s, token_amount, min_sol_out) is None,
        0 <= token_amount,
    ensures
        ({
            let s1 = sell_success_state(s, token_amount);
            let new_product = (s1.virtual_sol_reserves as int) * (s1.virtual_token_reserves as int);
            let old_product = (s.virtual_sol_reserves as int) * (s.virtual_token_reserves as int);
            &&& new_product <= old_product
            &&& old_product < new_product + s1.virtual_token_reserves
        }),
{
    let vs = s.virtual_sol_reserves as int;
    let vt = s.virtual_token_reserves as int;
    lemma_scaled_quotient_le(vt, vs, vt + token_amount);
    lemma_swap_preserves_product(vt, vs, token_amount);
    lemma_mul_is_commutative(vt + token_amount, swap_quotient(vt, vs, token_amount));
    lemma_mul_is_commutative(vs, vt);
}

/// A buy never pushes the real token reserve above the total supply: the
/// supply is fixed and the reserve only shrinks. (On a sell the bound is up
/// to the settlement layer, which must only accept tokens it once paid out.)
pub proof fn lemma_buy_preserves_supply_bound(s: BondingCurve, sol_amount: int, min_tokens_out: int)
    requires
        s.real_token_reserves <= s.token_total_supply,
        buy_rejection(s, sol_amount, min_tokens_out) is None,
        0 <= sol_amount,
    ensures
        buy_success_state(s, sol_amount).real_token_reserves <= buy_success_state(
            s,
            sol_amount,
        ).token_total_supply,
{
    let vs = s.virtual_sol_reserves as int;
    let vt = s.virtual_token_reserves as int;
    lemma_scaled_quotient_le(vs, vt, vs + sol_amount);
}

/// Monotonicity of a buy: any accepted buy of a positive amount against a
/// curve that still holds virtual tokens strictly shrinks the real token
/// reserve and strictly grows the real base reserve.
pub proof fn lemma_buy_monotonic(s: BondingCurve, sol_amount: int, min_tokens_out: int)
    requires
        buy_rejection(s, sol_amount, min_tokens_out) is None,
        0 < sol_amount,
        0 < s.virtual_token_reserves,
    ensures
        buy_success_state(s, sol_amount).real_token_reserves < s.real_token_reserves,
        buy_success_state(s, sol_amount).real_sol_reserves > s.real_sol_reserves,
{
    let vs = s.virtual_sol_reserves as int;
    let vt = s.virtual_token_reserves as int;
    lemma_scaled_quotient_le(vs, vt, vs + sol_amount);
    lemma_scaled_quotient_lt(vs, vt, vs + sol_amount);
    lemma_fee_bounds(sol_amount, crate::state::FEE_BPS as int);
}

/// Monotonicity of a sell: any accepted sell of a positive amount strictly
/// grows the real token reserve and never grows the real base reserve, which
/// strictly shrinks whenever the fee-net payout is positive.
pub proof fn lemma_sell_monotonic(s: BondingCurve, token_amount: int, min_sol_out: int)
    requires
        sell_rejection(s, token_amount, min_sol_out) is None,
        0 < token_amount,
    ensures
        sell_success_state(s, token_amount).real_token_reserves > s.real_token_reserves,
        sell_success_state(s, token_amount).real_sol_reserves <= s.real_sol_reserves,
        ({
            let vs = s.virtual_sol_reserves as int;
            let vt = s.virtual_token_reserves as int;
            let payout = swap_out(vt, vs, token_amount) - fee_amount(swap_out(vt, vs, token_amount));
            0 < payout ==> sell_success_state(s, token_amount).real_sol_reserves
                < s.real_sol_reserves
        }),
{
    let vs = s.virtual_sol_reserves as int;
    let vt = s.virtual_token_reserves as int;
    lemma_scaled_quotient_le(vt, vs, vt + token_amount);
    lemma_fee_bounds(swap_out(vt, vs, token_amount), crate::state::FEE_BPS as int);
}

/// Conservation bound: an accepted buy never pays out more tokens than the
/// curve actually holds.
pub proof fn lemma_buy_conservation(s: BondingCurve, sol_amount: int, min_tokens_out: int)
    requires
        buy_rejection(s, sol_amount, min_tokens_out) is None,
        0 <= sol_amount,
    ensures
        0 <= swap_out(
            s.virtual_sol_reserves as int,
            s.virtual_token_reserves as int,
            sol_amount,
        ) <= s.real_token_reserves,
{
    let vs = s.virtual_sol_reserves as int;
    let vt = s.virtual_token_reserves as int;
    lemma_scaled_quotient_le(vs, vt, vs + sol_amount);
}

/// On a curve whose reserves are in sync the defensive `InsufficientFunds`
/// check of a buy is unreachable: the payout never exceeds the virtual token
/// reserve, which equals the real one.
pub proof fn lemma_synced_buy_never_underfunded(s: BondingCurve, sol_amount: int, min_tokens_out: int)
    requires
        s.reserves_in_sync(),
        0 <= sol_amount,
    ensures
        buy_rejection(s, sol_amount, min_tokens_out) != Some(ClawdVaultError::InsufficientFunds),
{
    let vs = s.virtual_sol_reserves as int;
    let vt = s.virtual_token_reserves as int;
    if !s.graduated && vs + sol_amount <= u64::MAX && vs + sol_amount != 0 {
        lemma_scaled_quotient_le(vs, vt, vs + sol_amount);
    }
}

/// An accepted buy keeps the virtual and real token reserves in sync.
pub proof fn lemma_buy_preserves_sync(s: BondingCurve, sol_amount: int, min_tokens_out: int)
    requires
        s.reserves_in_sync(),
        buy_rejection(s, sol_amount, min_tokens_out) is None,
        0 <= sol_amount,
    ensures
        buy_success_state(s, sol_amount).reserves_in_sync(),
{
    let vs = s.virtual_sol_reserves as int;
    let vt = s.virtual_token_reserves as int;
    lemma_scaled_quotient_le(vs, vt, vs + sol_amount);
}

/// An accepted sell keeps the virtual and real token reserves in sync.
pub proof fn lemma_sell_preserves_sync(s: BondingCurve, token_amount: int, min_sol_out: int)
    requires
        s.reserves_in_sync(),
        sell_rejection(s, token_amount, min_sol_out) is None,
        0 <= token_amount,
    ensures
        sell_success_state(s, token_amount).reserves_in_sync(),
{
}

/// Rejection after graduation: a graduated curve rejects every buy and every
/// sell with `AlreadyGraduated`; together with the contracts of `buy` and
/// `sell` this means the state stays untouched and no settlement is produced.
pub proof fn lemma_graduated_rejects(s: BondingCurve, amount: int, min_out: int)
    requires
        s.graduated,
    ensures
        buy_rejection(s, amount, min_out) == Some(ClawdVaultError::AlreadyGraduated),
        sell_rejection(s, amount, min_out) == Some(ClawdVaultError::AlreadyGraduated),
{
}

/// Round-trip bound: buying tokens for `sol_amount` base units and
/// immediately selling the same tokens back pays out, net of the sell fee, at
/// most `sol_amount`. This needs the fee quantum to be reachable
/// (`sol_amount` of at least 100 base units) and a virtual token reserve at
/// least as large as the grown virtual base reserve, so that the double
/// truncation cannot outweigh the fee.
pub proof fn lemma_round_trip(s: BondingCurve, sol_amount: int)
    requires
        buy_rejection(s, sol_amount, 0) is None,
        100 <= sol_amount,
        s.virtual_sol_reserves + sol_amount <= s.virtual_token_reserves,
    ensures
        ({
            let s1 = buy_success_state(s, sol_amount);
            let bought = swap_out(
                s.virtual_sol_reserves as int,
                s.virtual_token_reserves as int,
                sol_amount,
            );
            let sol_back = swap_out(
                s1.virtual_token_reserves as int,
                s1.virtual_sol_reserves as int,
                bought,
            );
            sol_back - fee_amount(sol_back) <= sol_amount
        }),
{
    let vs = s.virtual_sol_reserves as int;
    let vt = s.virtual_token_reserves as int;
    let d1 = vs + sol_amount;
    let p = vs * vt;
    let q1 = p / d1;
    let r1 = p % d1;
    lemma_mul_nonnegative(vs, vt);
    lemma_fundamental_div_mod(p, d1);
    lemma_mod_division_less_than_divisor(p, d1);
    lemma_scaled_quotient_le(vs, vt, d1);
    let s1 = buy_success_state(s, sol_amount);
    assert(s1.virtual_sol_reserves as int == d1);
    assert(s1.virtual_token_reserves as int == q1);
    let bought = vt - q1;
    // The sell's divisor is the full old virtual token reserve again.
    assert(q1 + bought == vt);
    let q2 = (q1 * d1) / vt;
    assert(swap_quotient(q1, d1, bought) == q2);
    lemma_mul_is_commutative(q1, d1);
    assert(q1 * d1 == p - r1);
    // Upper bound: the sell's kept reserve is at most the old virtual base.
    lemma_div_is_ordered(q1 * d1, p, vt);
    lemma_mul_is_commutative(vs, vt);
    lemma_div_multiples_vanish(vs, vt);
    assert(q2 <= vs);
    // Lower bound: it falls short of the old virtual base by less than one.
    lemma_mul_is_distributive_sub(vt, vs, 1);
    assert(vt * (vs - 1) <= q1 * d1);
    lemma_div_is_ordered(vt * (vs - 1), q1 * d1, vt);
    lemma_div_multiples_vanish(vs - 1, vt);
    assert(vs - 1 <= q2);
    let sol_back = d1 - q2;
    assert(sol_amount <= sol_back <= sol_amount + 1);
    // With at least 100 base units coming back, the fee is at least one unit.
    lemma_div_is_ordered(10000, sol_back * 100, 10000);
    lemma_div_by_self(10000);
    assert(1 <= fee_amount(sol_back));
    lemma_fee_bounds(sol_back, crate::state::FEE_BPS as int);
}

} // verus!
