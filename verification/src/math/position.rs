use vstd::prelude::*;

use crate::controller::position::PositionDelta;
use crate::error::{ErrorCode, MiniDriftResult};
use crate::math::safe_math::fit_i64;
use crate::state::user::PerpPosition;
use vstd::arithmetic::div_mod::lemma_div_multiples_vanish;

verus! {

/// How a fill changes a position.
#[derive(Debug, PartialEq, Eq, Structural, Clone, Copy)]
pub enum PositionUpdateType {
    Open,
    Increase,
    Reduce,
    Close,
    Flip,
}

pub open spec fn abs(x: int) -> int {
    if x < 0 {
        -x
    } else {
        x
    }
}

/// Rust's integer division, which rounds toward zero, for a nonzero `d`.
pub open spec fn trunc_div(x: int, d: int) -> int {
    if x == 0 {
        0
    } else if x > 0 && d > 0 {
        x / d
    } else if x < 0 && d < 0 {
        (x * -1) / (d * -1)
    } else if x < 0 {
        ((x * -1) / d) * -1
    } else {
        (x / (d * -1)) * -1
    }
}

/// The classification is defined unless it would have to take the size of
/// `i64::MIN`: a change that neither opens nor grows the position needs the
/// sizes of both amounts.
pub open spec fn update_type_defined(position_base: i64, delta_base: i64) -> bool {
    ||| position_base == 0
    ||| (position_base > 0 && delta_base > 0)
    ||| (position_base < 0 && delta_base < 0)
    ||| (position_base != i64::MIN && delta_base != i64::MIN)
}

/// A change of `delta_base` to a position of `position_base` opens it when
/// it is empty, increases it when both have the same sign, and otherwise
/// reduces, closes or flips it as the change is smaller than, equal to or
/// larger than the position.
pub open spec fn spec_position_update_type(position_base: i64, delta_base: i64) -> PositionUpdateType {
    if position_base == 0 {
        PositionUpdateType::Open
    } else if (position_base > 0 && delta_base > 0) || (position_base < 0 && delta_base < 0) {
        PositionUpdateType::Increase
    } else if abs(position_base as int) > abs(delta_base as int) {
        PositionUpdateType::Reduce
    } else if abs(position_base as int) == abs(delta_base as int) {
        PositionUpdateType::Close
    } else {
        PositionUpdateType::Flip
    }
}

/// The position's base and quote amounts after the change.
pub open spec fn spec_new_position_amounts(position: PerpPosition, delta: PositionDelta) -> MiniDriftResult<(i64, i64)> {
    match fit_i64(position.base_asset_amount + delta.base_asset_amount) {
        Err(e) => Err(e),
        Ok(base) => match fit_i64(position.quote_asset_amount + delta.quote_asset_amount) {
            Err(e) => Err(e),
            Ok(quote) => Ok((base, quote)),
        },
    }
}

/// `quote_asset_amount * numerator / denominator`, rounded toward zero.
pub open spec fn spec_quote_portion(quote_asset_amount: i64, numerator: i64, denominator: i64) -> MiniDriftResult<i64> {
    if denominator == 0 {
        Err(ErrorCode::MathError)
    } else {
        fit_i64(trunc_div(quote_asset_amount * numerator, denominator as int))
    }
}

/// The size of `x`; `MathError` for `i64::MIN`, whose size is no `i64`.
pub open spec fn spec_size(x: i64) -> MiniDriftResult<i64> {
    if x == i64::MIN {
        Err(ErrorCode::MathError)
    } else {
        Ok(abs(x as int) as i64)
    }
}

/// New entry amount, new break-even amount and realized pnl.
///
/// Opening or increasing adds the delta's quote to the entry and
/// break-even amounts and realizes nothing. Reducing or closing removes
/// the share of entry and break-even that the delta's size makes of the
/// position's size, and realizes the removed entry plus the delta's quote.
/// Flipping closes the old position with the share of the delta's quote
/// that the old size makes of the delta's size, realizes the old entry plus
/// that share, and starts entry and break-even at what is left of the
/// delta's quote.
pub open spec fn spec_position_delta(
    position: PerpPosition,
    delta: PositionDelta,
    update_type: PositionUpdateType,
) -> MiniDriftResult<(i64, i64, i64)> {
    match update_type {
        PositionUpdateType::Open | PositionUpdateType::Increase => match fit_i64(
            position.quote_entry_amount + delta.quote_asset_amount,
        ) {
            Err(e) => Err(e),
            Ok(entry) => match fit_i64(
                position.quote_break_even_amount + delta.quote_asset_amount,
            ) {
                Err(e) => Err(e),
                Ok(break_even) => Ok((entry, break_even, 0)),
            },
        },
        PositionUpdateType::Reduce | PositionUpdateType::Close => match spec_size(
            position.base_asset_amount,
        ) {
            Err(e) => Err(e),
            Ok(old_size) => match spec_size(delta.base_asset_amount) {
                Err(e) => Err(e),
                Ok(delta_size) => match spec_quote_portion(
                    position.quote_entry_amount,
                    delta_size,
                    old_size,
                ) {
                    Err(e) => Err(e),
                    Ok(removed_entry) => match spec_quote_portion(
                        position.quote_break_even_amount,
                        delta_size,
                        old_size,
                    ) {
                        Err(e) => Err(e),
                        Ok(removed_break_even) => match fit_i64(
                            position.quote_entry_amount - removed_entry,
                        ) {
                            Err(e) => Err(e),
                            Ok(entry) => match fit_i64(
                                position.quote_break_even_amount - removed_break_even,
                            ) {
                                Err(e) => Err(e),
                                Ok(break_even) => match fit_i64(
                                    removed_entry + delta.quote_asset_amount,
                                ) {
                                    Err(e) => Err(e),
                                    Ok(pnl) => Ok((entry, break_even, pnl)),
                                },
                            },
                        },
                    },
                },
            },
        },
        PositionUpdateType::Flip => match spec_size(position.base_asset_amount) {
            Err(e) => Err(e),
            Ok(old_size) => match spec_size(delta.base_asset_amount) {
                Err(e) => Err(e),
                Ok(delta_size) => match spec_quote_portion(
                    delta.quote_asset_amount,
                    old_size,
                    delta_size,
                ) {
                    Err(e) => Err(e),
                    Ok(closing) => match fit_i64(delta.quote_asset_amount - closing) {
                        Err(e) => Err(e),
                        Ok(leftover) => match fit_i64(position.quote_entry_amount + closing) {
                            Err(e) => Err(e),
                            Ok(pnl) => Ok((leftover, leftover, pnl)),
                        },
                    },
                },
            },
        },
    }
}

pub fn get_position_update_type(position: &PerpPosition, delta: &PositionDelta) -> (r:
    PositionUpdateType)
    requires
        update_type_defined(position.base_asset_amount, delta.base_asset_amount),
    ensures
        r == spec_position_update_type(position.base_asset_amount, delta.base_asset_amount),
{
    if position.base_asset_amount == 0 {
        PositionUpdateType::Open
    } else if (position.base_asset_amount > 0 && delta.base_asset_amount > 0) || (
    position.base_asset_amount < 0 && delta.base_asset_amount < 0) {
        PositionUpdateType::Increase
    } else {
        let old_size = if position.base_asset_amount < 0 {
            -position.base_asset_amount
        } else {
            position.base_asset_amount
        };
        let delta_size = if delta.base_asset_amount < 0 {
            -delta.base_asset_amount
        } else {
            delta.base_asset_amount
        };
        if old_size > delta_size {
            PositionUpdateType::Reduce
        } else if old_size == delta_size {
            PositionUpdateType::Close
        } else {
            PositionUpdateType::Flip
        }
    }
}

pub fn get_new_position_amounts(position: &PerpPosition, delta: &PositionDelta) -> (r:
    MiniDriftResult<(i64, i64)>)
    ensures
        r == spec_new_position_amounts(*position, *delta),
{
    let new_base_asset_amount = position.base_asset_amount.checked_add(
        delta.base_asset_amount,
    ).ok_or(ErrorCode::MathError)?;
    let new_quote_asset_amount = position.quote_asset_amount.checked_add(
        delta.quote_asset_amount,
    ).ok_or(ErrorCode::MathError)?;
    Ok((new_base_asset_amount, new_quote_asset_amount))
}

pub fn calculate_quote_portion(quote_asset_amount: i64, numerator: i64, denominator: i64) -> (r:
    MiniDriftResult<i64>)
    ensures
        r == spec_quote_portion(quote_asset_amount, numerator, denominator),
{
    let quote_asset_amount_i128 = quote_asset_amount as i128;
    let numerator_i128 = numerator as i128;
    let denominator_i128 = denominator as i128;
    proof {
        let q = quote_asset_amount as int;
        let n = numerator as int;
        assert(-0x4000_0000_0000_0000_0000_0000_0000_0000 <= q * n
            <= 0x4000_0000_0000_0000_0000_0000_0000_0000) by (nonlinear_arith)
            requires
                -0x8000_0000_0000_0000 <= q <= 0x7fff_ffff_ffff_ffff,
                -0x8000_0000_0000_0000 <= n <= 0x7fff_ffff_ffff_ffff,
        ;
        if denominator != 0 {
            lemma_trunc_div_shrinks(q * n, denominator as int);
        }
    }
    let quote_portion = quote_asset_amount_i128.checked_mul(numerator_i128).ok_or(
        ErrorCode::MathError,
    )?.checked_div(denominator_i128).ok_or(ErrorCode::MathError)?;
    if quote_portion < i64::MIN as i128 || quote_portion > i64::MAX as i128 {
        Err(ErrorCode::MathError)
    } else {
        Ok(quote_portion as i64)
    }
}

/// Dividing by a nonzero integer never makes a number larger in size.
pub proof fn lemma_trunc_div_shrinks(x: int, d: int)
    requires
        d != 0,
    ensures
        abs(trunc_div(x, d)) <= abs(x),
{
    if x > 0 && d > 0 {
        assert(x / d <= x) by (nonlinear_arith)
            requires
                x > 0,
                d > 0,
        ;
        assert(x / d >= 0) by (nonlinear_arith)
            requires
                x > 0,
                d > 0,
        ;
    } else if x < 0 && d < 0 {
        assert((x * -1) / (d * -1) <= x * -1) by (nonlinear_arith)
            requires
                x < 0,
                d < 0,
        ;
        assert((x * -1) / (d * -1) >= 0) by (nonlinear_arith)
            requires
                x < 0,
                d < 0,
        ;
    } else if x < 0 {
        assert((x * -1) / d <= x * -1) by (nonlinear_arith)
            requires
                x < 0,
                d > 0,
        ;
        assert((x * -1) / d >= 0) by (nonlinear_arith)
            requires
                x < 0,
                d > 0,
        ;
    } else if x > 0 {
        assert(x / (d * -1) <= x) by (nonlinear_arith)
            requires
                x > 0,
                d < 0,
        ;
        assert(x / (d * -1) >= 0) by (nonlinear_arith)
            requires
                x > 0,
                d < 0,
        ;
    }
}

fn checked_size(x: i64) -> (r: MiniDriftResult<i64>)
    ensures
        r == spec_size(x),
{
    if x == i64::MIN {
        Err(ErrorCode::MathError)
    } else if x < 0 {
        Ok(-x)
    } else {
        Ok(x)
    }
}

pub fn calculate_position_delta(
    position: &PerpPosition,
    delta: &PositionDelta,
    update_type: &PositionUpdateType,
) -> (r: MiniDriftResult<(i64, i64, i64)>)
    ensures
        r == spec_position_delta(*position, *delta, *update_type),
{
    match update_type {
        PositionUpdateType::Open | PositionUpdateType::Increase => {
            let new_quote_entry_amount = position.quote_entry_amount.checked_add(
                delta.quote_asset_amount,
            ).ok_or(ErrorCode::MathError)?;
            let new_quote_break_even_amount = position.quote_break_even_amount.checked_add(
                delta.quote_asset_amount,
            ).ok_or(ErrorCode::MathError)?;
            Ok((new_quote_entry_amount, new_quote_break_even_amount, 0))
        },
        PositionUpdateType::Reduce | PositionUpdateType::Close => {
            let old_size = checked_size(position.base_asset_amount)?;
            let delta_size = checked_size(delta.base_asset_amount)?;
            let removed_quote_entry_amount = calculate_quote_portion(
                position.quote_entry_amount,
                delta_size,
                old_size,
            )?;
            let removed_quote_break_even_amount = calculate_quote_portion(
                position.quote_break_even_amount,
                delta_size,
                old_size,
            )?;
            let new_quote_entry_amount = position.quote_entry_amount.checked_sub(
                removed_quote_entry_amount,
            ).ok_or(ErrorCode::MathError)?;
            let new_quote_break_even_amount = position.quote_break_even_amount.checked_sub(
                removed_quote_break_even_amount,
            ).ok_or(ErrorCode::MathError)?;
            let realized_pnl = removed_quote_entry_amount.checked_add(
                delta.quote_asset_amount,
            ).ok_or(ErrorCode::MathError)?;
            Ok((new_quote_entry_amount, new_quote_break_even_amount, realized_pnl))
        },
        PositionUpdateType::Flip => {
            let old_size = checked_size(position.base_asset_amount)?;
            let delta_size = checked_size(delta.base_asset_amount)?;
            let closing_quote_amount = calculate_quote_portion(
                delta.quote_asset_amount,
                old_size,
                delta_size,
            )?;
            let new_leftover_quote_amount = delta.quote_asset_amount.checked_sub(
                closing_quote_amount,
            ).ok_or(ErrorCode::MathError)?;
            let realized_pnl = position.quote_entry_amount.checked_add(
                closing_quote_amount,
            ).ok_or(ErrorCode::MathError)?;
            Ok((new_leftover_quote_amount, new_leftover_quote_amount, realized_pnl))
        },
    }
}

/// The classification describes what the change does to the base: an
/// opened position was empty, an increased one grows away from zero on the
/// same side, a reduced one shrinks toward zero (or stays) on the same
/// side, a closed one ends at zero and a flipped one ends on the other side.
pub proof fn lemma_update_type_describes_new_base(position_base: i64, delta_base: i64)
    ensures
        ({
            let before = position_base as int;
            let after = position_base + delta_base;
            match spec_position_update_type(position_base, delta_base) {
                PositionUpdateType::Open => before == 0,
                PositionUpdateType::Increase => (before > 0 && after > before) || (before < 0
                    && after < before),
                PositionUpdateType::Reduce => (before > 0 && 0 < after <= before) || (before < 0
                    && before <= after < 0),
                PositionUpdateType::Close => before != 0 && after == 0,
                PositionUpdateType::Flip => (before > 0 && after < 0) || (before < 0 && after
                    > 0),
            }
        }),
{
}

/// Quote accounting balances: whatever the kind of change, the realized
/// pnl plus the new entry amount equals the old entry amount plus the
/// change's quote.
pub proof fn lemma_quote_accounting_balances(
    position: PerpPosition,
    delta: PositionDelta,
    update_type: PositionUpdateType,
)
    requires
        spec_position_delta(position, delta, update_type) is Ok,
    ensures
        ({
            let (entry, _, pnl) = spec_position_delta(position, delta, update_type)->Ok_0;
            pnl + entry == position.quote_entry_amount + delta.quote_asset_amount
        }),
{
}

/// A share of the whole: `x * s / s` is `x` for a positive `s`.
pub proof fn lemma_trunc_div_cancels(x: int, s: int)
    requires
        s > 0,
    ensures
        trunc_div(x * s, s) == x,
{
    if x > 0 {
        assert(x * s > 0) by (nonlinear_arith)
            requires
                x > 0,
                s > 0,
        ;
        lemma_div_multiples_vanish(x, s);
        assert(x * s == s * x) by (nonlinear_arith);
    } else if x < 0 {
        assert(x * s < 0) by (nonlinear_arith)
            requires
                x < 0,
                s > 0,
        ;
        lemma_div_multiples_vanish(-x, s);
        assert((x * s) * -1 == s * (-x)) by (nonlinear_arith);
    } else {
        assert(x * s == 0) by (nonlinear_arith)
            requires
                x == 0,
        ;
    }
}

/// Reducing by the whole size of the position settles it: the entry and
/// break-even amounts go to zero and the realized pnl is the entry amount
/// plus the change's quote.
pub proof fn lemma_full_reduction_settles_entry(
    position: PerpPosition,
    delta: PositionDelta,
    update_type: PositionUpdateType,
)
    requires
        update_type == PositionUpdateType::Reduce || update_type == PositionUpdateType::Close,
        position.base_asset_amount != 0,
        abs(delta.base_asset_amount as int) == abs(position.base_asset_amount as int),
        spec_position_delta(position, delta, update_type) is Ok,
    ensures
        spec_position_delta(position, delta, update_type) == Ok::<(i64, i64, i64), ErrorCode>(
            (0, 0, (position.quote_entry_amount + delta.quote_asset_amount) as i64),
        ),
{
    let size = abs(position.base_asset_amount as int);
    lemma_trunc_div_cancels(position.quote_entry_amount as int, size);
    lemma_trunc_div_cancels(position.quote_break_even_amount as int, size);
}

/// What each kind of change does to the entry and break-even amounts and
/// the realized pnl, stated on the amounts themselves. Opening or
/// increasing adds the change's quote to both amounts and realizes nothing.
/// Reducing or closing removes from each amount its own share, the amount
/// times the change's size over the position's size (rounded toward zero),
/// and realizes the removed entry plus the change's quote. Flipping closes
/// the old position with the share of the change's quote that the old size
/// makes of the change's size, starts both amounts at what is left of the
/// change's quote, and realizes the old entry plus the closing share.
pub proof fn lemma_position_delta_amounts(
    position: PerpPosition,
    delta: PositionDelta,
    update_type: PositionUpdateType,
)
    requires
        spec_position_delta(position, delta, update_type) is Ok,
    ensures
        ({
            let (entry, break_even, pnl) = spec_position_delta(position, delta, update_type)->Ok_0;
            let old_size = abs(position.base_asset_amount as int);
            let delta_size = abs(delta.base_asset_amount as int);
            match update_type {
                PositionUpdateType::Open | PositionUpdateType::Increase => {
                    &&& entry == position.quote_entry_amount + delta.quote_asset_amount
                    &&& break_even == position.quote_break_even_amount + delta.quote_asset_amount
                    &&& pnl == 0
                },
                PositionUpdateType::Reduce | PositionUpdateType::Close => {
                    let removed_entry = trunc_div(
                        position.quote_entry_amount * delta_size,
                        old_size,
                    );
                    let removed_break_even = trunc_div(
                        position.quote_break_even_amount * delta_size,
                        old_size,
                    );
                    &&& entry == position.quote_entry_amount - removed_entry
                    &&& break_even == position.quote_break_even_amount - removed_break_even
                    &&& pnl == removed_entry + delta.quote_asset_amount
                },
                PositionUpdateType::Flip => {
                    let closing = trunc_div(delta.quote_asset_amount * old_size, delta_size);
                    &&& entry == delta.quote_asset_amount - closing
                    &&& break_even == entry
                    &&& pnl == position.quote_entry_amount + closing
                },
            }
        }),
{
}

} // verus!
