use vstd::prelude::*;

use crate::error::{ErrorCode, MiniDriftResult};
use crate::math::safe_math::fit_u64;
use vstd::arithmetic::div_mod::{lemma_div_pos_is_pos, lemma_fundamental_div_mod, lemma_mod_bound};
use crate::state::user::{
    spec_base_asset_amount_unfilled, Order, OrderStatus, PositionDirection,
};

verus! {

/// Ten to the power `e`.
pub open spec fn pow10(e: nat) -> int
    decreases e,
{
    if e == 0 {
        1
    } else {
        10 * pow10((e - 1) as nat)
    }
}

/// Powers of ten are positive and grow with the exponent.
pub proof fn lemma_pow10_increases(a: nat, b: nat)
    requires
        a <= b,
    ensures
        1 <= pow10(a) <= pow10(b),
    decreases b,
{
    if b > 0 {
        let a1: nat = if a < b { a } else { (b - 1) as nat };
        lemma_pow10_increases(a1, (b - 1) as nat);
    }
}

/// `10^exp` where it fits in a `u128`.
pub fn checked_pow10(exp: u32) -> (r: Option<u128>)
    ensures
        r == (if pow10(exp as nat) <= u128::MAX {
            Some(pow10(exp as nat) as u128)
        } else {
            None::<u128>
        }),
{
    let mut acc: u128 = 1;
    let mut i: u32 = 0;
    while i < exp
        invariant
            i <= exp,
            acc == pow10(i as nat),
        decreases exp - i,
    {
        match acc.checked_mul(10) {
            Some(next) => {
                acc = next;
            },
            None => {
                proof {
                    lemma_pow10_increases((i + 1) as nat, exp as nat);
                }
                return None;
            },
        }
        i = i + 1;
    }
    Some(acc)
}

/// The quote amount of `base_asset_amount` at `fill_price`, in the quote's
/// precision: the product divided by `10^base_decimals`, rounded down for a
/// maker bid and up for a maker ask, so that rounding is always in the
/// maker's favour. `MathError` where the
/// precision, the rounded-up numerator or the result does not fit.
pub open spec fn spec_quote_for_maker_order(
    base_asset_amount: u64,
    fill_price: u64,
    base_decimals: u32,
    maker_direction: PositionDirection,
) -> MiniDriftResult<u64> {
    let precision = pow10(base_decimals as nat);
    let raw: int = base_asset_amount * fill_price;
    if precision > u128::MAX {
        Err(ErrorCode::MathError)
    } else if maker_direction == PositionDirection::Long {
        fit_u64(raw / precision)
    } else if raw + precision - 1 > u128::MAX {
        Err(ErrorCode::MathError)
    } else {
        fit_u64((raw + precision - 1) / precision)
    }
}

/// An order expires once the time passes its `max_ts`; a zero `max_ts`
/// never expires.
pub open spec fn spec_should_expire_order(order: Order, ts: i64) -> bool {
    order.max_ts != 0 && ts > order.max_ts
}

/// An open reduce-only order is cancelled once what it could still reduce
/// of the position is less than the market's step size.
pub open spec fn spec_should_cancel_reduce_only_order(
    order: Order,
    existing_base_asset_amount: i64,
    step_size: u64,
) -> MiniDriftResult<bool> {
    if order.status != OrderStatus::Open || !order.reduce_only {
        Ok(false)
    } else {
        match spec_base_asset_amount_unfilled(order, Some(existing_base_asset_amount)) {
            Ok(unfilled) => Ok(unfilled < step_size),
            Err(e) => Err(e),
        }
    }
}

pub fn calculate_quote_asset_amount_for_maker_order(
    base_asset_amount: u64,
    fill_price: u64,
    base_decimals: u32,
    maker_direction: PositionDirection,
) -> (r: MiniDriftResult<u64>)
    ensures
        r == spec_quote_for_maker_order(
            base_asset_amount,
            fill_price,
            base_decimals,
            maker_direction,
        ),
{
    let base_precision = checked_pow10(base_decimals).ok_or(ErrorCode::MathError)?;
    proof {
        lemma_pow10_increases(0, base_decimals as nat);
        assert(base_asset_amount * fill_price <= u64::MAX * u64::MAX) by (nonlinear_arith);
    }
    let calculated_quote_raw = (base_asset_amount as u128).checked_mul(fill_price as u128).ok_or(
        ErrorCode::MathError,
    )?;
    if maker_direction == PositionDirection::Long {
        let r = calculated_quote_raw.checked_div(base_precision).ok_or(ErrorCode::MathError)?;
        if r > u64::MAX as u128 {
            Err(ErrorCode::MathError)
        } else {
            Ok(r as u64)
        }
    } else {
        let num = calculated_quote_raw.checked_add(base_precision - 1).ok_or(
            ErrorCode::MathError,
        )?;
        let r = num.checked_div(base_precision).ok_or(ErrorCode::MathError)?;
        if r > u64::MAX as u128 {
            Err(ErrorCode::MathError)
        } else {
            Ok(r as u64)
        }
    }
}

pub fn should_expire_order(order: &Order, ts: i64) -> (r: bool)
    ensures
        r == spec_should_expire_order(*order, ts),
{
    if order.max_ts == 0 {
        false
    } else {
        ts > order.max_ts
    }
}

pub fn should_cancel_reduce_only_order(
    order: &Order,
    existing_base_asset_amount: i64,
    step_size: u64,
) -> (r: MiniDriftResult<bool>)
    ensures
        r == spec_should_cancel_reduce_only_order(*order, existing_base_asset_amount, step_size),
{
    if order.status != OrderStatus::Open {
        return Ok(false);
    }
    if !order.reduce_only {
        return Ok(false);
    }
    let base_asset_amount_unfilled = order.get_base_asset_amount_unfilled(
        Some(existing_base_asset_amount),
    )?;
    Ok(base_asset_amount_unfilled < step_size)
}

/// Rounding is in the maker's favour and by less than one unit: the exact
/// quote lies between what a maker bid pays and what a maker ask receives,
/// and these differ by at most one.
pub proof fn lemma_maker_rounding_brackets_exact_quote(
    base_asset_amount: u64,
    fill_price: u64,
    base_decimals: u32,
)
    requires
        spec_quote_for_maker_order(
            base_asset_amount,
            fill_price,
            base_decimals,
            PositionDirection::Long,
        ) is Ok,
        spec_quote_for_maker_order(
            base_asset_amount,
            fill_price,
            base_decimals,
            PositionDirection::Short,
        ) is Ok,
    ensures
        ({
            let precision = pow10(base_decimals as nat);
            let raw = base_asset_amount * fill_price;
            let bid = spec_quote_for_maker_order(
                base_asset_amount,
                fill_price,
                base_decimals,
                PositionDirection::Long,
            )->Ok_0;
            let ask = spec_quote_for_maker_order(
                base_asset_amount,
                fill_price,
                base_decimals,
                PositionDirection::Short,
            )->Ok_0;
            &&& bid * precision <= raw <= ask * precision
            &&& bid <= ask <= bid + 1
        }),
{
    let precision = pow10(base_decimals as nat);
    let raw: int = base_asset_amount * fill_price;
    lemma_pow10_increases(0, base_decimals as nat);
    assert(raw >= 0) by (nonlinear_arith)
        requires
            raw == base_asset_amount * fill_price,
    ;
    let bid = raw / precision;
    let ask = (raw + precision - 1) / precision;
    lemma_fundamental_div_mod(raw, precision);
    lemma_fundamental_div_mod(raw + precision - 1, precision);
    lemma_mod_bound(raw, precision);
    lemma_mod_bound(raw + precision - 1, precision);
    assert(bid * precision <= raw <= ask * precision && bid <= ask <= bid + 1) by (nonlinear_arith)
        requires
            precision >= 1,
            raw == precision * bid + raw % precision,
            0 <= raw % precision < precision,
            raw + precision - 1 == precision * ask + (raw + precision - 1) % precision,
            0 <= (raw + precision - 1) % precision < precision,
    ;
}

/// A maker bid's quote is the exact quote rounded down: the largest amount
/// whose value in base precision does not pass the base amount times the
/// price. It is refused only where the precision or the quote does not fit.
pub proof fn lemma_maker_bid_rounds_down(base_asset_amount: u64, fill_price: u64, base_decimals: u32)
    ensures
        ({
            let precision = pow10(base_decimals as nat);
            let raw = base_asset_amount * fill_price;
            let r = spec_quote_for_maker_order(
                base_asset_amount,
                fill_price,
                base_decimals,
                PositionDirection::Long,
            );
            &&& r is Ok <==> (precision <= u128::MAX && raw / precision <= u64::MAX)
            &&& r matches Ok(q) ==> q * precision <= raw < (q + 1) * precision
        }),
{
    let precision = pow10(base_decimals as nat);
    let raw: int = base_asset_amount * fill_price;
    lemma_pow10_increases(0, base_decimals as nat);
    assert(raw >= 0) by (nonlinear_arith)
        requires
            raw == base_asset_amount * fill_price,
    ;
    lemma_fundamental_div_mod(raw, precision);
    lemma_mod_bound(raw, precision);
    let q = raw / precision;
    lemma_div_pos_is_pos(raw, precision);
    assert(q * precision <= raw < (q + 1) * precision) by (nonlinear_arith)
        requires
            precision >= 1,
            raw == precision * q + raw % precision,
            0 <= raw % precision < precision,
    ;
}

/// A maker ask's quote is the exact quote rounded up: the smallest amount
/// whose value in base precision reaches the base amount times the price.
/// It is refused only where the precision, the rounded-up numerator or the
/// quote does not fit.
pub proof fn lemma_maker_ask_rounds_up(base_asset_amount: u64, fill_price: u64, base_decimals: u32)
    ensures
        ({
            let precision = pow10(base_decimals as nat);
            let raw = base_asset_amount * fill_price;
            let r = spec_quote_for_maker_order(
                base_asset_amount,
                fill_price,
                base_decimals,
                PositionDirection::Short,
            );
            &&& r is Ok <==> (precision <= u128::MAX && raw + precision - 1 <= u128::MAX && (raw
                + precision - 1) / precision <= u64::MAX)
            &&& r matches Ok(q) ==> (q - 1) * precision < raw <= q * precision
        }),
{
    let precision = pow10(base_decimals as nat);
    let raw: int = base_asset_amount * fill_price;
    lemma_pow10_increases(0, base_decimals as nat);
    assert(raw >= 0) by (nonlinear_arith)
        requires
            raw == base_asset_amount * fill_price,
    ;
    let n = raw + precision - 1;
    lemma_fundamental_div_mod(n, precision);
    lemma_mod_bound(n, precision);
    let q = n / precision;
    lemma_div_pos_is_pos(n, precision);
    assert((q - 1) * precision < raw <= q * precision) by (nonlinear_arith)
        requires
            precision >= 1,
            n == raw + precision - 1,
            n == precision * q + n % precision,
            0 <= n % precision < precision,
    ;
}

/// An order expires exactly when it has a nonzero `max_ts` and the time has
/// passed it.
pub proof fn lemma_expiry(order: Order, ts: i64)
    ensures
        spec_should_expire_order(order, ts) == (order.max_ts != 0 && ts > order.max_ts),
{
}

/// Only open reduce-only orders are ever cancelled for their size, and one
/// is cancelled exactly when what it could still reduce of the position is
/// below the step size; so an order that would grow the position, or one
/// with no position left, is cancelled for any nonzero step.
pub proof fn lemma_reduce_only_cancellation(order: Order, existing_base_asset_amount: i64, step_size: u64)
    ensures
        ({
            let r = spec_should_cancel_reduce_only_order(order, existing_base_asset_amount, step_size);
            let grows = existing_base_asset_amount == 0 || (order.direction
                == PositionDirection::Long && existing_base_asset_amount > 0) || (order.direction
                == PositionDirection::Short && existing_base_asset_amount < 0);
            &&& (order.status != OrderStatus::Open || !order.reduce_only) ==> r == Ok::<
                bool,
                ErrorCode,
            >(false)
            &&& (order.status == OrderStatus::Open && order.reduce_only && !order.post_only
                && order.base_asset_amount >= order.base_asset_amount_filled && grows) ==> r
                == Ok::<bool, ErrorCode>(step_size > 0)
            &&& (order.status == OrderStatus::Open && order.reduce_only
                && order.base_asset_amount < order.base_asset_amount_filled) ==> r == Err::<
                bool,
                ErrorCode,
            >(ErrorCode::MathError)
        }),
{
}

} // verus!
