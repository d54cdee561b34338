use vstd::prelude::*;

use crate::errors::ClawdVaultError;
use crate::math::{lemma_fee_bounds, lemma_scaled_quotient_le, lemma_u64_product_fits_u128};
use crate::state::{BondingCurve, FEE_BPS, GRADUATION_THRESHOLD};

verus! {

/// Settlement instruction returned by a successful buy: the caller delivers
/// `sol_in` base units to the curve, the curve delivers `tokens_out` token
/// units to the caller, and `fee` base units out of the collected amount are
/// routed to the protocol fee sink.
#[derive(Clone, Copy, Debug, PartialEq, Eq, Structural)]
pub struct BuySettlement {
    pub sol_in: u64,
    pub tokens_out: u64,
    pub fee: u64,
}

/// Settlement instruction returned by a successful sell: the caller delivers
/// `tokens_in` token units to the curve, the curve delivers `sol_out` base
/// units (net of the fee) to the caller, and `fee` base units are routed to
/// the protocol fee sink.
#[derive(Clone, Copy, Debug, PartialEq, Eq, Structural)]
pub struct SellSettlement {
    pub tokens_in: u64,
    pub sol_out: u64,
    pub fee: u64,
}

/// The reserve kept on the receiving side of a constant-product swap: the old
/// product of the reserves, divided (truncating toward zero) by the grown
/// opposite reserve `r_in + amount_in`. Truncation favors the curve.
pub open spec fn swap_quotient(r_in: int, r_out: int, amount_in: int) -> int {
    (r_in * r_out) / (r_in + amount_in)
}

/// What a constant-product swap pays out of the reserve `r_out` when
/// `amount_in` is added to the opposite reserve `r_in`.
pub open spec fn swap_out(r_in: int, r_out: int, amount_in: int) -> int {
    r_out - swap_quotient(r_in, r_out, amount_in)
}

/// The protocol fee on a traded base-currency amount: `FEE_BPS` basis points
/// of it, rounded down.
pub open spec fn fee_amount(amount: int) -> int {
    (amount * (FEE_BPS as int)) / 10000
}

/// The rejection, if any, that `buy` returns for this state and request, in
/// the order the checks are made; `None` means the buy is accepted.
pub open spec fn buy_rejection(s: BondingCurve, sol_amount: int, min_tokens_out: int) -> Option<
    ClawdVaultError,
> {
    let vs = s.virtual_sol_reserves as int;
    let vt = s.virtual_token_reserves as int;
    if s.graduated {
        Some(ClawdVaultError::AlreadyGraduated)
    } else if vs + sol_amount > u64::MAX {
        Some(ClawdVaultError::MathOverflow)
    } else if vs + sol_amount == 0 {
        Some(ClawdVaultError::MathOverflow)
    } else if swap_out(vs, vt, sol_amount) < min_tokens_out {
        Some(ClawdVaultError::SlippageExceeded)
    } else if sol_amount * (FEE_BPS as int) > u64::MAX {
        Some(ClawdVaultError::MathOverflow)
    } else if s.real_sol_reserves + sol_amount - fee_amount(sol_amount) > u64::MAX {
        Some(ClawdVaultError::MathOverflow)
    } else if swap_out(vs, vt, sol_amount) > s.real_token_reserves {
        Some(ClawdVaultError::InsufficientFunds)
    } else {
        None
    }
}

/// The state an accepted buy moves the curve to: the virtual reserves move
/// along the curve, the real base reserve grows by the fee-net payment, the
/// real token reserve shrinks by the payout, and the curve graduates exactly
/// when the new real base reserve reaches the threshold.
pub open spec fn buy_success_state(s: BondingCurve, sol_amount: int) -> BondingCurve {
    let vs = s.virtual_sol_reserves as int;
    let vt = s.virtual_token_reserves as int;
    let new_real_sol = s.real_sol_reserves + sol_amount - fee_amount(sol_amount);
    BondingCurve {
        creator: s.creator,
        mint: s.mint,
        virtual_sol_reserves: (vs + sol_amount) as u64,
        virtual_token_reserves: swap_quotient(vs, vt, sol_amount) as u64,
        real_sol_reserves: new_real_sol as u64,
        real_token_reserves: (s.real_token_reserves - swap_out(vs, vt, sol_amount)) as u64,
        token_total_supply: s.token_total_supply,
        graduated: new_real_sol >= GRADUATION_THRESHOLD,
    }
}

/// Buy tokens from the curve for `sol_amount` base units, rejecting the whole
/// request if the payout falls below `min_tokens_out`. On rejection the state
/// is untouched; on success it moves to `buy_success_state` and the returned
/// settlement carries the exact amounts owed.
pub fn buy(curve: &mut BondingCurve, sol_amount: u64, min_tokens_out: u64) -> (r: Result<
    BuySettlement,
    ClawdVaultError,
>)
    ensures
        (buy_rejection(*old(curve), sol_amount as int, min_tokens_out as int) matches Some(e) ==> r
            == Err::<BuySettlement, ClawdVaultError>(e) && *final(curve) == *old(curve)),
        buy_rejection(*old(curve), sol_amount as int, min_tokens_out as int) is None ==> ({
            let vs = old(curve).virtual_sol_reserves as int;
            let vt = old(curve).virtual_token_reserves as int;
            &&& *final(curve) == buy_success_state(*old(curve), sol_amount as int)
            &&& (r matches Ok(settlement) && settlement.sol_in == sol_amount
                && settlement.tokens_out == swap_out(vs, vt, sol_amount as int)
                && settlement.fee == fee_amount(sol_amount as int))
        }),
        old(curve).graduated ==> final(curve).graduated,
{
    if curve.graduated {
        return Err(ClawdVaultError::AlreadyGraduated);
    }
    let new_virtual_sol = match curve.virtual_sol_reserves.checked_add(sol_amount) {
        Some(v) => v,
        None => {
            return Err(ClawdVaultError::MathOverflow);
        },
    };
    if new_virtual_sol == 0 {
        return Err(ClawdVaultError::MathOverflow);
    }
    // The product of two 64-bit reserves needs 128-bit arithmetic; the
    // quotient fits 64 bits again because it never exceeds the token reserve.
    proof {
        lemma_u64_product_fits_u128(
            curve.virtual_sol_reserves as int,
            curve.virtual_token_reserves as int,
        );
    }
    let product: u128 = (curve.virtual_sol_reserves as u128) * (curve.virtual_token_reserves
        as u128);
    proof {
        lemma_scaled_quotient_le(
            curve.virtual_sol_reserves as int,
            curve.virtual_token_reserves as int,
            new_virtual_sol as int,
        );
    }
    let new_virtual_tokens: u64 = (product / (new_virtual_sol as u128)) as u64;
    let tokens_out = curve.virtual_token_reserves - new_virtual_tokens;
    if tokens_out < min_tokens_out {
        return Err(ClawdVaultError::SlippageExceeded);
    }
    let fee = match sol_amount.checked_mul(FEE_BPS) {
        Some(v) => v / 10000,
        None => {
            return Err(ClawdVaultError::MathOverflow);
        },
    };
    proof {
        lemma_fee_bounds(sol_amount as int, FEE_BPS as int);
    }
    let sol_after_fee = sol_amount - fee;
    let new_real_sol = match curve.real_sol_reserves.checked_add(sol_after_fee) {
        Some(v) => v,
        None => {
            return Err(ClawdVaultError::MathOverflow);
        },
    };
    if tokens_out > curve.real_token_reserves {
        return Err(ClawdVaultError::InsufficientFunds);
    }
    curve.virtual_sol_reserves = new_virtual_sol;
    curve.virtual_token_reserves = new_virtual_tokens;
    curve.real_sol_reserves = new_real_sol;
    curve.real_token_reserves = curve.real_token_reserves - tokens_out;
    if new_real_sol >= GRADUATION_THRESHOLD {
        curve.graduated = true;
    }
    Ok(BuySettlement { sol_in: sol_amount, tokens_out: tokens_out, fee: fee })
}

/// The rejection, if any, that `sell` returns for this state and request, in
/// the order the checks are made; `None` means the sell is accepted. Unlike
/// buy, the slippage bound is checked on the fee-net payout.
pub open spec fn sell_rejection(s: BondingCurve, token_amount: int, min_sol_out: int) -> Option<
    ClawdVaultError,
> {
    let vs = s.virtual_sol_reserves as int;
    let vt = s.virtual_token_reserves as int;
    let sol_out = swap_out(vt, vs, token_amount);
    if s.graduated {
        Some(ClawdVaultError::AlreadyGraduated)
    } else if vt + token_amount > u64::MAX {
        Some(ClawdVaultError::MathOverflow)
    } else if vt + token_amount == 0 {
        Some(ClawdVaultError::MathOverflow)
    } else if sol_out * (FEE_BPS as int) > u64::MAX {
        Some(ClawdVaultError::MathOverflow)
    } else if sol_out - fee_amount(sol_out) < min_sol_out {
        Some(ClawdVaultError::SlippageExceeded)
    } else if sol_out - fee_amount(sol_out) > s.real_sol_reserves {
        Some(ClawdVaultError::InsufficientFunds)
    } else if s.real_token_reserves + token_amount > u64::MAX {
        Some(ClawdVaultError::MathOverflow)
    } else {
        None
    }
}

/// The state an accepted sell moves the curve to: the mirror image of a buy,
/// except that the fee is taken from the payout and a sell never triggers
/// graduation.
pub open spec fn sell_success_state(s: BondingCurve, token_amount: int) -> BondingCurve {
    let vs = s.virtual_sol_reserves as int;
    let vt = s.virtual_token_reserves as int;
    let sol_out = swap_out(vt, vs, token_amount);
    let payout = sol_out - fee_amount(sol_out);
    BondingCurve {
        creator: s.creator,
        mint: s.mint,
        virtual_sol_reserves: swap_quotient(vt, vs, token_amount) as u64,
        virtual_token_reserves: (vt + token_amount) as u64,
        real_sol_reserves: (s.real_sol_reserves - payout) as u64,
        real_token_reserves: (s.real_token_reserves + token_amount) as u64,
        token_total_supply: s.token_total_supply,
        graduated: s.graduated,
    }
}

/// Sell `token_amount` tokens back to the curve, rejecting the whole request
/// if the fee-net payout falls below `min_sol_out`. On rejection the state is
/// untouched; on success it moves to `sell_success_state` and the returned
/// settlement carries the exact amounts owed.
pub fn sell(curve: &mut BondingCurve, token_amount: u64, min_sol_out: u64) -> (r: Result<
    SellSettlement,
    ClawdVaultError,
>)
    ensures
        (sell_rejection(*old(curve), token_amount as int, min_sol_out as int) matches Some(e) ==> r
            == Err::<SellSettlement, ClawdVaultError>(e) && *final(curve) == *old(curve)),
        sell_rejection(*old(curve), token_amount as int, min_sol_out as int) is None ==> ({
            let vs = old(curve).virtual_sol_reserves as int;
            let vt = old(curve).virtual_token_reserves as int;
            let sol_out = swap_out(vt, vs, token_amount as int);
            &&& *final(curve) == sell_success_state(*old(curve), token_amount as int)
            &&& (r matches Ok(settlement) && settlement.tokens_in == token_amount
                && settlement.sol_out == sol_out - fee_amount(sol_out)
                && settlement.fee == fee_amount(sol_out))
        }),
        old(curve).graduated ==> final(curve).graduated,
{
    if curve.graduated {
        return Err(ClawdVaultError::AlreadyGraduated);
    }
    let new_virtual_tokens = match curve.virtual_token_reserves.checked_add(token_amount) {
        Some(v) => v,
        None => {
            return Err(ClawdVaultError::MathOverflow);
        },
    };
    if new_virtual_tokens == 0 {
        return Err(ClawdVaultError::MathOverflow);
    }
    // As in `buy`: the reserve product needs 128 bits, its quotient fits 64.
    proof {
        lemma_u64_product_fits_u128(
            curve.virtual_token_reserves as int,
            curve.virtual_sol_reserves as int,
        );
    }
    let product: u128 = (curve.virtual_token_reserves as u128) * (curve.virtual_sol_reserves
        as u128);
    proof {
        lemma_scaled_quotient_le(
            curve.virtual_token_reserves as int,
            curve.virtual_sol_reserves as int,
            new_virtual_tokens as int,
        );
    }
    let new_virtual_sol: u64 = (product / (new_virtual_tokens as u128)) as u64;
    let sol_out = curve.virtual_sol_reserves - new_virtual_sol;
    let fee = match sol_out.checked_mul(FEE_BPS) {
        Some(v) => v / 10000,
        None => {
            return Err(ClawdVaultError::MathOverflow);
        },
    };
    proof {
        lemma_fee_bounds(sol_out as int, FEE_BPS as int);
    }
    let sol_after_fee = sol_out - fee;
    if sol_after_fee < min_sol_out {
        return Err(ClawdVaultError::SlippageExceeded);
    }
    if sol_after_fee > curve.real_sol_reserves {
        return Err(ClawdVaultError::InsufficientFunds);
    }
    let new_real_tokens = match curve.real_token_reserves.checked_add(token_amount) {
        Some(v) => v,
        None => {
            return Err(ClawdVaultError::MathOverflow);
        },
    };
    curve.virtual_sol_reserves = new_virtual_sol;
    curve.virtual_token_reserves = new_virtual_tokens;
    curve.real_sol_reserves = curve.real_sol_reserves - sol_after_fee;
    curve.real_token_reserves = new_real_tokens;
    Ok(SellSettlement { tokens_in: token_amount, sol_out: sol_after_fee, fee: fee })
}

} // verus!
