use vstd::prelude::*;

use crate::error::{ErrorCode, MiniDriftResult};
use crate::math::constants::{PEG_PRECISION, PRICE_PRECISION};
use crate::math::position::abs;
use crate::math::safe_math::{fit_i128, fit_i64, fit_u128, fit_u64, SafeMath};
use vstd::arithmetic::div_mod::{
    lemma_div_is_ordered_by_denominator, lemma_div_multiples_vanish, lemma_fundamental_div_mod,
    lemma_remainder,
};
use crate::state::perp_market::Amm;

verus! {

/// Which way the base reserve moves in a swap: base added to the AMM (the
/// user sells) or taken out of it (the user buys).
#[derive(Debug, PartialEq, Eq, Structural, Clone, Copy)]
pub enum SwapDirection {
    Add,
    Subtract,
}

/// The mark price: quote reserve times peg, in price precision, over the
/// base reserve, rounded down. An AMM with an empty reserve or a zero peg
/// is invalid; a product that overflows `u128` or a price beyond `i64`
/// gives `MathError`.
pub open spec fn spec_mark_price(amm: Amm) -> MiniDriftResult<i64> {
    if amm.base_asset_reserve == 0 || amm.quote_asset_reserve == 0 || amm.peg_multiplier == 0 {
        Err(ErrorCode::InvalidAmmDetected)
    } else {
        let quote_peg: int = amm.quote_asset_reserve * amm.peg_multiplier;
        if quote_peg > u128::MAX || quote_peg * PRICE_PRECISION > u128::MAX {
            Err(ErrorCode::MathError)
        } else {
            fit_i64(
                quote_peg * PRICE_PRECISION / (PEG_PRECISION as int) / (
                amm.base_asset_reserve as int),
            )
        }
    }
}

/// The base reserve after moving `swap_amount` in `direction`.
pub open spec fn new_base_reserve(amm: Amm, swap_amount: u64, direction: SwapDirection) -> int {
    match direction {
        SwapDirection::Add => amm.base_asset_reserve + swap_amount,
        SwapDirection::Subtract => amm.base_asset_reserve - swap_amount,
    }
}

/// The quote reserve that keeps the constant product for a new base
/// reserve: the product of the reserves over it, rounded down.
pub open spec fn new_quote_reserve(amm: Amm, new_base: int) -> int {
    amm.base_asset_reserve * amm.quote_asset_reserve / new_base
}

/// The quote amount a swap of `swap_amount` base moves: the distance from
/// the quote reserve to the constant-product quote reserve at the new base
/// reserve. Empty reserves, and a new base reserve that is zero or outside
/// the AMM's bounds, make the AMM invalid; overflow gives `MathError`.
pub open spec fn spec_swap_base_asset(amm: Amm, swap_amount: u64, direction: SwapDirection) -> MiniDriftResult<u64> {
    let new_base = new_base_reserve(amm, swap_amount, direction);
    if amm.base_asset_reserve == 0 || amm.quote_asset_reserve == 0 {
        Err(ErrorCode::InvalidAmmDetected)
    } else if new_base < 0 || new_base > u128::MAX {
        Err(ErrorCode::MathError)
    } else if new_base < amm.min_base_asset_reserve || new_base > amm.max_base_asset_reserve
        || new_base == 0 {
        Err(ErrorCode::InvalidAmmDetected)
    } else if amm.base_asset_reserve * amm.quote_asset_reserve > u128::MAX {
        Err(ErrorCode::MathError)
    } else {
        let new_quote = new_quote_reserve(amm, new_base);
        fit_u64(
            if new_quote > amm.quote_asset_reserve {
                new_quote - amm.quote_asset_reserve
            } else {
                amm.quote_asset_reserve - new_quote
            },
        )
    }
}

/// The AMM after a swap, and the quote amount moved. Adding base takes the
/// quote amount out of the quote reserve and adds the base to the AMM's
/// short side; taking base out adds the quote amount to the quote reserve
/// and the base to the long side. The net base with the AMM moves opposite
/// to its base reserve. A refused swap changes nothing.
pub open spec fn spec_update_amm_reserves(amm: Amm, swap_amount: u64, direction: SwapDirection) -> (Amm, MiniDriftResult<u64>) {
    match spec_swap_base_asset(amm, swap_amount, direction) {
        Err(e) => (amm, Err(e)),
        Ok(quote) => {
            let (base_r, quote_r, with_amm, long, short) = match direction {
                SwapDirection::Add => (
                    fit_u128(amm.base_asset_reserve + swap_amount),
                    fit_u128(amm.quote_asset_reserve - quote),
                    fit_i128(amm.base_asset_amount_with_amm - swap_amount),
                    Ok(amm.base_asset_amount_long),
                    fit_i128(amm.base_asset_amount_short - swap_amount),
                ),
                SwapDirection::Subtract => (
                    fit_u128(amm.base_asset_reserve - swap_amount),
                    fit_u128(amm.quote_asset_reserve + quote),
                    fit_i128(amm.base_asset_amount_with_amm + swap_amount),
                    fit_i128(amm.base_asset_amount_long + swap_amount),
                    Ok(amm.base_asset_amount_short),
                ),
            };
            match (base_r, quote_r, with_amm, long, short) {
                (Ok(b), Ok(q), Ok(w), Ok(l), Ok(s)) => (
                    Amm {
                        base_asset_reserve: b,
                        quote_asset_reserve: q,
                        base_asset_amount_with_amm: w,
                        base_asset_amount_long: l,
                        base_asset_amount_short: s,
                        ..amm
                    },
                    Ok(quote),
                ),
                _ => (amm, Err(ErrorCode::MathError)),
            }
        },
    }
}

pub fn calculate_mark_price(amm: &Amm) -> (r: MiniDriftResult<i64>)
    ensures
        r == spec_mark_price(*amm),
{
    if amm.base_asset_reserve == 0 || amm.quote_asset_reserve == 0 || amm.peg_multiplier == 0 {
        return Err(ErrorCode::InvalidAmmDetected);
    }
    let mark_price = amm.quote_asset_reserve.safe_mul(amm.peg_multiplier)?.safe_mul(
        PRICE_PRECISION,
    )?.safe_div(PEG_PRECISION)?.safe_div(amm.base_asset_reserve)?;
    if mark_price > i64::MAX as u128 {
        Err(ErrorCode::MathError)
    } else {
        Ok(mark_price as i64)
    }
}

pub fn swap_base_asset(amm: &Amm, swap_amount: u64, direction: SwapDirection) -> (r:
    MiniDriftResult<u64>)
    ensures
        r == spec_swap_base_asset(*amm, swap_amount, direction),
{
    if amm.base_asset_reserve == 0 || amm.quote_asset_reserve == 0 {
        return Err(ErrorCode::InvalidAmmDetected);
    }
    let swap_amount = swap_amount as u128;
    let new_base_asset_reserve = match direction {
        SwapDirection::Add => amm.base_asset_reserve.safe_add(swap_amount)?,
        SwapDirection::Subtract => amm.base_asset_reserve.safe_sub(swap_amount)?,
    };
    if new_base_asset_reserve < amm.min_base_asset_reserve || new_base_asset_reserve
        > amm.max_base_asset_reserve || new_base_asset_reserve == 0 {
        return Err(ErrorCode::InvalidAmmDetected);
    }
    let constant_product = amm.base_asset_reserve.safe_mul(amm.quote_asset_reserve)?;
    let new_quote_asset_reserve = constant_product.safe_div(new_base_asset_reserve)?;
    let quote_asset_amount = if new_quote_asset_reserve > amm.quote_asset_reserve {
        new_quote_asset_reserve.safe_sub(amm.quote_asset_reserve)?
    } else {
        amm.quote_asset_reserve.safe_sub(new_quote_asset_reserve)?
    };
    if quote_asset_amount > u64::MAX as u128 {
        Err(ErrorCode::MathError)
    } else {
        Ok(quote_asset_amount as u64)
    }
}

pub fn update_amm_reserves(amm: &mut Amm, swap_amount: u64, direction: SwapDirection) -> (r:
    MiniDriftResult<u64>)
    ensures
        (*final(amm), r) == spec_update_amm_reserves(*old(amm), swap_amount, direction),
{
    let quote_asset_amount = swap_base_asset(amm, swap_amount, direction)?;
    let swap_amount_u128 = swap_amount as u128;
    let quote_asset_amount_u128 = quote_asset_amount as u128;
    let swap_amount_i128 = swap_amount as i128;

    let (
        new_base_asset_reserve,
        new_quote_asset_reserve,
        new_base_asset_amount_with_amm,
        new_base_asset_amount_long,
        new_base_asset_amount_short,
    ) = match direction {
        SwapDirection::Add => (
            amm.base_asset_reserve.safe_add(swap_amount_u128)?,
            amm.quote_asset_reserve.safe_sub(quote_asset_amount_u128)?,
            amm.base_asset_amount_with_amm.checked_sub(swap_amount_i128).ok_or(
                ErrorCode::MathError,
            )?,
            amm.base_asset_amount_long,
            amm.base_asset_amount_short.checked_sub(swap_amount_i128).ok_or(
                ErrorCode::MathError,
            )?,
        ),
        SwapDirection::Subtract => (
            amm.base_asset_reserve.safe_sub(swap_amount_u128)?,
            amm.quote_asset_reserve.safe_add(quote_asset_amount_u128)?,
            amm.base_asset_amount_with_amm.checked_add(swap_amount_i128).ok_or(
                ErrorCode::MathError,
            )?,
            amm.base_asset_amount_long.checked_add(swap_amount_i128).ok_or(
                ErrorCode::MathError,
            )?,
            amm.base_asset_amount_short,
        ),
    };

    amm.base_asset_reserve = new_base_asset_reserve;
    amm.quote_asset_reserve = new_quote_asset_reserve;
    amm.base_asset_amount_with_amm = new_base_asset_amount_with_amm;
    amm.base_asset_amount_long = new_base_asset_amount_long;
    amm.base_asset_amount_short = new_base_asset_amount_short;

    Ok(quote_asset_amount)
}

/// A refused swap leaves the AMM as it was.
pub proof fn lemma_refused_swap_keeps_amm(amm: Amm, swap_amount: u64, direction: SwapDirection)
    ensures
        spec_update_amm_reserves(amm, swap_amount, direction).1 is Err ==> spec_update_amm_reserves(
            amm,
            swap_amount,
            direction,
        ).0 == amm,
{
}

/// A swap keeps the AMM on its constant-product curve: the base reserve
/// moves by the swap amount and stays within its bounds, the quote reserve
/// becomes the product of the old reserves over the new base reserve
/// (rounded down, so the product never grows and loses less than one base
/// reserve), the quote amount returned is exactly how far the quote
/// reserve moved, and the AMM's net base moves against its base reserve,
/// onto the short side when base is added and the long side when it is
/// taken out.
pub proof fn lemma_swap_stays_on_curve(amm: Amm, swap_amount: u64, direction: SwapDirection)
    requires
        spec_update_amm_reserves(amm, swap_amount, direction).1 is Ok,
    ensures
        ({
            let (after, moved) = spec_update_amm_reserves(amm, swap_amount, direction);
            let k = amm.base_asset_reserve * amm.quote_asset_reserve;
            let base = after.base_asset_reserve as int;
            let quote = after.quote_asset_reserve as int;
            &&& base == new_base_reserve(amm, swap_amount, direction)
            &&& amm.min_base_asset_reserve <= base <= amm.max_base_asset_reserve
            &&& base > 0
            &&& quote == k / base
            &&& base * quote <= k < base * (quote + 1)
            &&& moved == Ok::<u64, ErrorCode>(
                abs(quote - amm.quote_asset_reserve) as u64,
            )
            &&& direction == SwapDirection::Add ==> {
                &&& quote <= amm.quote_asset_reserve
                &&& after.base_asset_amount_with_amm == amm.base_asset_amount_with_amm
                    - swap_amount
                &&& after.base_asset_amount_short == amm.base_asset_amount_short - swap_amount
                &&& after.base_asset_amount_long == amm.base_asset_amount_long
            }
            &&& direction == SwapDirection::Subtract ==> {
                &&& quote >= amm.quote_asset_reserve
                &&& after.base_asset_amount_with_amm == amm.base_asset_amount_with_amm
                    + swap_amount
                &&& after.base_asset_amount_long == amm.base_asset_amount_long + swap_amount
                &&& after.base_asset_amount_short == amm.base_asset_amount_short
            }
        }),
{
    let b = amm.base_asset_reserve as int;
    let q = amm.quote_asset_reserve as int;
    let k = b * q;
    let nb = new_base_reserve(amm, swap_amount, direction);
    assert(b > 0 && q > 0);
    assert(b * q >= 0) by (nonlinear_arith)
        requires
            b > 0,
            q > 0,
    ;
    lemma_div_multiples_vanish(q, b);
    assert(k / b == q);
    let nq = k / nb;
    match direction {
        SwapDirection::Add => {
            lemma_div_is_ordered_by_denominator(k, b, nb);
        },
        SwapDirection::Subtract => {
            lemma_div_is_ordered_by_denominator(k, nb, b);
        },
    }
    lemma_fundamental_div_mod(k, nb);
    lemma_remainder(k, nb);
    assert(nb * nq <= k < nb * (nq + 1)) by (nonlinear_arith)
        requires
            k == nb * nq + k % nb,
            0 <= k % nb < nb,
    ;
}

/// The mark price is the quote reserve times the peg over the base reserve,
/// rounded down (price and peg share one precision), for an AMM with
/// nonempty reserves and a nonzero peg.
pub proof fn lemma_mark_price_is_reserve_ratio(amm: Amm)
    requires
        spec_mark_price(amm) is Ok,
    ensures
        amm.base_asset_reserve > 0,
        amm.quote_asset_reserve > 0,
        amm.peg_multiplier > 0,
        spec_mark_price(amm)->Ok_0 == amm.quote_asset_reserve * amm.peg_multiplier / (
        amm.base_asset_reserve as int),
{
    let x: int = amm.quote_asset_reserve * amm.peg_multiplier;
    assert(x * 1_000_000 == 1_000_000 * x) by (nonlinear_arith);
    lemma_div_multiples_vanish(x, 1_000_000);
}

} // verus!
