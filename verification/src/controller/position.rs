use vstd::prelude::*;

use crate::error::{ErrorCode, MiniDriftResult};
use crate::math::position::{
    abs, calculate_position_delta, get_new_position_amounts, get_position_update_type,
    spec_new_position_amounts, spec_position_delta, spec_position_update_type,
    update_type_defined, PositionUpdateType,
};
use crate::math::safe_math::fit_i128;
use crate::state::perp_market::{Amm, PerpMarket};
use crate::state::user::{PerpPosition, PositionDirection};

verus! {

/// A change to a position: signed base and quote amounts.
#[derive(Debug, Default, PartialEq, Eq, Clone, Copy)]
pub struct PositionDelta {
    pub base_asset_amount: i64,
    pub quote_asset_amount: i64,
}

/// The market's user counters after a change of the given type to a
/// position: opening counts the position among those with base (and among
/// the market's users if the position was empty); closing stops counting
/// it among those with base (and among users if nothing is left of it),
/// never going below zero. `MathError` where a count would pass `u32::MAX`.
pub open spec fn spec_user_counts(
    market: PerpMarket,
    update_type: PositionUpdateType,
    old_position_was_empty: bool,
    new_position_is_empty: bool,
) -> MiniDriftResult<(u32, u32)> {
    let users = market.number_of_users;
    let with_base = market.number_of_users_with_base;
    match update_type {
        PositionUpdateType::Open => if old_position_was_empty && users == u32::MAX {
            Err(ErrorCode::MathError)
        } else if with_base == u32::MAX {
            Err(ErrorCode::MathError)
        } else {
            Ok(
                (
                    if old_position_was_empty {
                        (users + 1) as u32
                    } else {
                        users
                    },
                    (with_base + 1) as u32,
                ),
            )
        },
        PositionUpdateType::Close => Ok(
            (
                if new_position_is_empty && users > 0 {
                    (users - 1) as u32
                } else {
                    users
                },
                if with_base > 0 {
                    (with_base - 1) as u32
                } else {
                    with_base
                },
            ),
        ),
        _ => Ok((users, with_base)),
    }
}

/// A position of `base` is off the market's step: the step is nonzero and
/// does not divide the position's size.
pub open spec fn off_step(base: i64, step: u64) -> bool {
    step != 0 && abs(base as int) % (step as int) != 0
}

/// What a position with `base` contributes to its market's long totals:
/// `amount` for a long position, nothing otherwise.
pub open spec fn long_part(base: i64, amount: i64) -> int {
    if base > 0 {
        amount as int
    } else {
        0
    }
}

/// What a position with `base` contributes to its market's short totals:
/// `amount` for a short position, nothing otherwise.
pub open spec fn short_part(base: i64, amount: i64) -> int {
    if base < 0 {
        amount as int
    } else {
        0
    }
}

/// `total` with `removed` taken out and then `added` put in; `MathError`
/// where either step leaves `i128`.
pub open spec fn shift_total(total: i128, removed: int, added: int) -> MiniDriftResult<i128> {
    match fit_i128(total - removed) {
        Err(e) => Err(e),
        Ok(t) => fit_i128(t + added),
    }
}

/// The AMM's quote totals after a position moves from `before` to a base,
/// entry and break-even amount of `base`, `entry` and `break_even`: each
/// long total drops the old position's part and takes the new one's, and so
/// does each short total. `MathError` where a total leaves `i128`.
pub open spec fn spec_amm_quote_totals(
    amm: Amm,
    before: PerpPosition,
    base: i64,
    entry: i64,
    break_even: i64,
) -> MiniDriftResult<Amm> {
    let old_base = before.base_asset_amount;
    match shift_total(
        amm.quote_entry_amount_long,
        long_part(old_base, before.quote_entry_amount),
        long_part(base, entry),
    ) {
        Err(e) => Err(e),
        Ok(entry_long) => match shift_total(
            amm.quote_entry_amount_short,
            short_part(old_base, before.quote_entry_amount),
            short_part(base, entry),
        ) {
            Err(e) => Err(e),
            Ok(entry_short) => match shift_total(
                amm.quote_break_even_amount_long,
                long_part(old_base, before.quote_break_even_amount),
                long_part(base, break_even),
            ) {
                Err(e) => Err(e),
                Ok(break_even_long) => match shift_total(
                    amm.quote_break_even_amount_short,
                    short_part(old_base, before.quote_break_even_amount),
                    short_part(base, break_even),
                ) {
                    Err(e) => Err(e),
                    Ok(break_even_short) => Ok(
                        Amm {
                            quote_entry_amount_long: entry_long,
                            quote_entry_amount_short: entry_short,
                            quote_break_even_amount_long: break_even_long,
                            quote_break_even_amount_short: break_even_short,
                            ..amm
                        },
                    ),
                },
            },
        },
    }
}

/// Position, market and result after applying `delta`. A position whose
/// size is not a multiple of a nonzero step size is refused; so is any
/// change whose arithmetic fails. A refused change alters nothing. An
/// accepted one sets the position's base, quote, entry and break-even
/// amounts, updates the market's user counters and the AMM's long and short
/// quote entry and break-even totals, and returns the realized pnl.
pub open spec fn spec_update_position_and_market(
    position: PerpPosition,
    delta: PositionDelta,
    market: PerpMarket,
) -> (PerpPosition, PerpMarket, MiniDriftResult<i64>) {
    if off_step(position.base_asset_amount, market.order_step_size) {
        (position, market, Err(ErrorCode::InvalidPerpPositionDetected))
    } else {
        let update_type = spec_position_update_type(
            position.base_asset_amount,
            delta.base_asset_amount,
        );
        match spec_new_position_amounts(position, delta) {
            Err(e) => (position, market, Err(e)),
            Ok((base, quote)) => match spec_position_delta(position, delta, update_type) {
                Err(e) => (position, market, Err(e)),
                Ok((entry, break_even, pnl)) => match spec_user_counts(
                    market,
                    update_type,
                    position.base_asset_amount == 0 && position.quote_asset_amount == 0,
                    base == 0 && quote == 0,
                ) {
                    Err(e) => (position, market, Err(e)),
                    Ok((users, with_base)) => match spec_amm_quote_totals(
                        market.amm,
                        position,
                        base,
                        entry,
                        break_even,
                    ) {
                        Err(e) => (position, market, Err(e)),
                        Ok(amm) => (
                            PerpPosition {
                                base_asset_amount: base,
                                quote_asset_amount: quote,
                                quote_entry_amount: entry,
                                quote_break_even_amount: break_even,
                                ..position
                            },
                            PerpMarket {
                                number_of_users: users,
                                number_of_users_with_base: with_base,
                                amm,
                                ..market
                            },
                            Ok(pnl),
                        ),
                    },
                },
            },
        }
    }
}

/// The position after an order of `amount` in `direction` is added to its
/// open bids (long) or open asks (short, kept negative); `MathError` and no
/// change where the amount or the new total does not fit in an `i64`.
pub open spec fn spec_increase_open_bids_and_asks(
    position: PerpPosition,
    direction: PositionDirection,
    amount: u64,
) -> (PerpPosition, MiniDriftResult<()>) {
    if amount > i64::MAX {
        (position, Err(ErrorCode::MathError))
    } else if direction == PositionDirection::Long {
        if position.open_bids + amount > i64::MAX {
            (position, Err(ErrorCode::MathError))
        } else {
            (PerpPosition { open_bids: (position.open_bids + amount) as i64, ..position }, Ok(()))
        }
    } else {
        if position.open_asks - amount < i64::MIN {
            (position, Err(ErrorCode::MathError))
        } else {
            (PerpPosition { open_asks: (position.open_asks - amount) as i64, ..position }, Ok(()))
        }
    }
}

/// The position after `amount` of an order in `direction` stops being open:
/// open bids fall toward zero (never below), open asks rise toward zero
/// (never above). With `update` false nothing changes.
pub open spec fn spec_decrease_open_bids_and_asks(
    position: PerpPosition,
    direction: PositionDirection,
    amount: u64,
    update: bool,
) -> (PerpPosition, MiniDriftResult<()>) {
    if !update {
        (position, Ok(()))
    } else if amount > i64::MAX {
        (position, Err(ErrorCode::MathError))
    } else if direction == PositionDirection::Long {
        if position.open_bids - amount < i64::MIN {
            (position, Err(ErrorCode::MathError))
        } else {
            let bids: int = position.open_bids - amount;
            (
                PerpPosition { open_bids: (if bids > 0 { bids } else { 0 }) as i64, ..position },
                Ok(()),
            )
        }
    } else {
        if position.open_asks + amount > i64::MAX {
            (position, Err(ErrorCode::MathError))
        } else {
            let asks: int = position.open_asks + amount;
            (
                PerpPosition { open_asks: (if asks < 0 { asks } else { 0 }) as i64, ..position },
                Ok(()),
            )
        }
    }
}

/// The long and short parts of `amount` for a position with `base`.
fn side_parts(base: i64, amount: i64) -> (r: (i64, i64))
    ensures
        r.0 == long_part(base, amount),
        r.1 == short_part(base, amount),
{
    if base > 0 {
        (amount, 0)
    } else if base < 0 {
        (0, amount)
    } else {
        (0, 0)
    }
}

fn shift_quote_total(total: i128, removed: i64, added: i64) -> (r: MiniDriftResult<i128>)
    ensures
        r == shift_total(total, removed as int, added as int),
{
    let rest = total.checked_sub(removed as i128).ok_or(ErrorCode::MathError)?;
    rest.checked_add(added as i128).ok_or(ErrorCode::MathError)
}

pub fn update_position_and_market(
    position: &mut PerpPosition,
    delta: &PositionDelta,
    market: &mut PerpMarket,
) -> (r: MiniDriftResult<i64>)
    requires
        off_step(old(position).base_asset_amount, old(market).order_step_size)
            || update_type_defined(old(position).base_asset_amount, delta.base_asset_amount),
    ensures
        (*final(position), *final(market), r) == spec_update_position_and_market(
            *old(position),
            *delta,
            *old(market),
        ),
{
    let base = position.base_asset_amount;
    let size: u64 = if base < 0 {
        (-(base as i128)) as u64
    } else {
        base as u64
    };
    if market.order_step_size != 0 && !size.is_multiple_of(market.order_step_size) {
        return Err(ErrorCode::InvalidPerpPositionDetected);
    };
    let old_position_was_empty = position.base_asset_amount == 0 && position.quote_asset_amount
        == 0;
    let update_type = get_position_update_type(position, delta);
    let (new_base_asset_amount, new_quote_asset_amount) = get_new_position_amounts(
        position,
        delta,
    )?;
    let (new_quote_entry_amount, new_quote_break_even_amount, realized_pnl) =
        calculate_position_delta(position, delta, &update_type)?;

    let mut number_of_users = market.number_of_users;
    let mut number_of_users_with_base = market.number_of_users_with_base;

    match update_type {
        PositionUpdateType::Open => {
            if old_position_was_empty {
                number_of_users = number_of_users.checked_add(1).ok_or(ErrorCode::MathError)?;
            }
            number_of_users_with_base = number_of_users_with_base.checked_add(1).ok_or(
                ErrorCode::MathError,
            )?;
        },
        PositionUpdateType::Close => {
            if new_base_asset_amount == 0 && new_quote_asset_amount == 0 {
                number_of_users = number_of_users.saturating_sub(1);
            }
            number_of_users_with_base = number_of_users_with_base.saturating_sub(1);
        },
        _ => {},
    }

    let old_base = position.base_asset_amount;
    let (old_entry_long, old_entry_short) = side_parts(old_base, position.quote_entry_amount);
    let (new_entry_long, new_entry_short) = side_parts(
        new_base_asset_amount,
        new_quote_entry_amount,
    );
    let (old_break_even_long, old_break_even_short) = side_parts(
        old_base,
        position.quote_break_even_amount,
    );
    let (new_break_even_long, new_break_even_short) = side_parts(
        new_base_asset_amount,
        new_quote_break_even_amount,
    );
    let quote_entry_amount_long = shift_quote_total(
        market.amm.quote_entry_amount_long,
        old_entry_long,
        new_entry_long,
    )?;
    let quote_entry_amount_short = shift_quote_total(
        market.amm.quote_entry_amount_short,
        old_entry_short,
        new_entry_short,
    )?;
    let quote_break_even_amount_long = shift_quote_total(
        market.amm.quote_break_even_amount_long,
        old_break_even_long,
        new_break_even_long,
    )?;
    let quote_break_even_amount_short = shift_quote_total(
        market.amm.quote_break_even_amount_short,
        old_break_even_short,
        new_break_even_short,
    )?;

    position.base_asset_amount = new_base_asset_amount;
    position.quote_asset_amount = new_quote_asset_amount;
    position.quote_entry_amount = new_quote_entry_amount;
    position.quote_break_even_amount = new_quote_break_even_amount;
    market.number_of_users = number_of_users;
    market.number_of_users_with_base = number_of_users_with_base;
    market.amm.quote_entry_amount_long = quote_entry_amount_long;
    market.amm.quote_entry_amount_short = quote_entry_amount_short;
    market.amm.quote_break_even_amount_long = quote_break_even_amount_long;
    market.amm.quote_break_even_amount_short = quote_break_even_amount_short;

    Ok(realized_pnl)
}

pub fn increase_open_bids_and_asks(
    position: &mut PerpPosition,
    direction: &PositionDirection,
    base_asset_amount_unfilled: u64,
) -> (r: MiniDriftResult<()>)
    ensures
        (*final(position), r) == spec_increase_open_bids_and_asks(
            *old(position),
            *direction,
            base_asset_amount_unfilled,
        ),
{
    if base_asset_amount_unfilled > i64::MAX as u64 {
        return Err(ErrorCode::MathError);
    }
    let base_asset_amount_unfilled_i64 = base_asset_amount_unfilled as i64;
    match *direction {
        PositionDirection::Long => {
            position.open_bids = position.open_bids.checked_add(
                base_asset_amount_unfilled_i64,
            ).ok_or(ErrorCode::MathError)?
        },
        PositionDirection::Short => {
            position.open_asks = position.open_asks.checked_sub(
                base_asset_amount_unfilled_i64,
            ).ok_or(ErrorCode::MathError)?
        },
    }
    Ok(())
}

pub fn decrease_open_bids_and_asks(
    position: &mut PerpPosition,
    direction: &PositionDirection,
    base_asset_amount: u64,
    update: bool,
) -> (r: MiniDriftResult<()>)
    ensures
        (*final(position), r) == spec_decrease_open_bids_and_asks(
            *old(position),
            *direction,
            base_asset_amount,
            update,
        ),
{
    if !update {
        return Ok(());
    }
    if base_asset_amount > i64::MAX as u64 {
        return Err(ErrorCode::MathError);
    }
    let base_asset_amount_i64 = base_asset_amount as i64;
    if *direction == PositionDirection::Long {
        let bids = position.open_bids.checked_sub(base_asset_amount_i64).ok_or(
            ErrorCode::MathError,
        )?;
        position.open_bids = if bids > 0 {
            bids
        } else {
            0
        };
        Ok(())
    } else {
        let asks = position.open_asks.checked_add(base_asset_amount_i64).ok_or(
            ErrorCode::MathError,
        )?;
        position.open_asks = if asks < 0 {
            asks
        } else {
            0
        };
        Ok(())
    }
}

/// A refused change leaves position and market as they were; an accepted
/// one moves the position's base and quote by the delta's, keeps the
/// position's orders and market identity, balances its quote accounting,
/// moves the AMM's long and short quote totals from the old position's part
/// to the new one's, and keeps everything else of the market but its user
/// counters.
pub proof fn lemma_update_applies_delta(
    position: PerpPosition,
    delta: PositionDelta,
    market: PerpMarket,
)
    ensures
        ({
            let (after, market_after, r) = spec_update_position_and_market(
                position,
                delta,
                market,
            );
            match r {
                Err(_) => after == position && market_after == market,
                Ok(pnl) => {
                    &&& after.base_asset_amount == position.base_asset_amount
                        + delta.base_asset_amount
                    &&& after.quote_asset_amount == position.quote_asset_amount
                        + delta.quote_asset_amount
                    &&& pnl + after.quote_entry_amount == position.quote_entry_amount
                        + delta.quote_asset_amount
                    &&& after == PerpPosition {
                        base_asset_amount: after.base_asset_amount,
                        quote_asset_amount: after.quote_asset_amount,
                        quote_entry_amount: after.quote_entry_amount,
                        quote_break_even_amount: after.quote_break_even_amount,
                        ..position
                    }
                    &&& market_after == PerpMarket {
                        number_of_users: market_after.number_of_users,
                        number_of_users_with_base: market_after.number_of_users_with_base,
                        amm: Amm {
                            quote_entry_amount_long: market_after.amm.quote_entry_amount_long,
                            quote_entry_amount_short: market_after.amm.quote_entry_amount_short,
                            quote_break_even_amount_long: market_after.amm.quote_break_even_amount_long,
                            quote_break_even_amount_short: market_after.amm.quote_break_even_amount_short,
                            ..market.amm
                        },
                        ..market
                    }
                    &&& market_after.amm.quote_entry_amount_long == market.amm.quote_entry_amount_long
                        - long_part(position.base_asset_amount, position.quote_entry_amount)
                        + long_part(after.base_asset_amount, after.quote_entry_amount)
                    &&& market_after.amm.quote_entry_amount_short
                        == market.amm.quote_entry_amount_short - short_part(
                        position.base_asset_amount,
                        position.quote_entry_amount,
                    ) + short_part(after.base_asset_amount, after.quote_entry_amount)
                    &&& market_after.amm.quote_break_even_amount_long
                        == market.amm.quote_break_even_amount_long - long_part(
                        position.base_asset_amount,
                        position.quote_break_even_amount,
                    ) + long_part(after.base_asset_amount, after.quote_break_even_amount)
                    &&& market_after.amm.quote_break_even_amount_short
                        == market.amm.quote_break_even_amount_short - short_part(
                        position.base_asset_amount,
                        position.quote_break_even_amount,
                    ) + short_part(after.base_asset_amount, after.quote_break_even_amount)
                },
            }
        }),
{
    let update_type = spec_position_update_type(
        position.base_asset_amount,
        delta.base_asset_amount,
    );
    if spec_position_delta(position, delta, update_type) is Ok {
        crate::math::position::lemma_quote_accounting_balances(position, delta, update_type);
    }
}

/// Open bids stay non-negative and open asks non-positive through placing
/// and releasing orders.
pub proof fn lemma_open_bids_and_asks_keep_their_signs(
    position: PerpPosition,
    direction: PositionDirection,
    amount: u64,
    update: bool,
)
    requires
        position.open_bids >= 0,
        position.open_asks <= 0,
    ensures
        spec_increase_open_bids_and_asks(position, direction, amount).0.open_bids >= 0,
        spec_increase_open_bids_and_asks(position, direction, amount).0.open_asks <= 0,
        spec_decrease_open_bids_and_asks(position, direction, amount, update).0.open_bids >= 0,
        spec_decrease_open_bids_and_asks(position, direction, amount, update).0.open_asks <= 0,
{
}

/// Releasing the amount of an order undoes placing it.
pub proof fn lemma_release_undoes_place(
    position: PerpPosition,
    direction: PositionDirection,
    amount: u64,
)
    requires
        position.open_bids >= 0,
        position.open_asks <= 0,
        spec_increase_open_bids_and_asks(position, direction, amount).1 is Ok,
    ensures
        spec_decrease_open_bids_and_asks(
            spec_increase_open_bids_and_asks(position, direction, amount).0,
            direction,
            amount,
            true,
        ) == (position, Ok::<(), ErrorCode>(())),
{
}

/// An accepted change moves the market's user counters by what it does to
/// the position: a change that opens the position counts it among those
/// with base, and among the market's users when it was empty before; one
/// that closes it stops counting it among those with base, and among the
/// users when nothing is left of it (neither count goes below zero); any
/// other change leaves both counts.
pub proof fn lemma_update_counts_users(position: PerpPosition, delta: PositionDelta, market: PerpMarket)
    requires
        spec_update_position_and_market(position, delta, market).2 is Ok,
    ensures
        ({
            let (after, market_after, _) = spec_update_position_and_market(position, delta, market);
            let was_empty = position.base_asset_amount == 0 && position.quote_asset_amount == 0;
            let now_empty = after.base_asset_amount == 0 && after.quote_asset_amount == 0;
            let users = market.number_of_users as int;
            let with_base = market.number_of_users_with_base as int;
            let opens = position.base_asset_amount == 0;
            let closes = position.base_asset_amount != 0 && after.base_asset_amount == 0;
            &&& opens ==> market_after.number_of_users_with_base == with_base + 1
                && market_after.number_of_users == users + (if was_empty { 1int } else { 0 })
            &&& closes ==> market_after.number_of_users_with_base == (if with_base > 0 {
                with_base - 1
            } else {
                0
            }) && market_after.number_of_users == (if now_empty && users > 0 {
                users - 1
            } else {
                users
            })
            &&& !opens && !closes ==> market_after.number_of_users_with_base == with_base
                && market_after.number_of_users == users
        }),
{
    crate::math::position::lemma_update_type_describes_new_base(
        position.base_asset_amount,
        delta.base_asset_amount,
    );
}

/// Placing an order adds its amount to the open bids of a long or takes it
/// from the open asks of a short, leaving the other side; it is refused,
/// changing nothing, only where the amount or the new total leaves `i64`.
pub proof fn lemma_place_amounts(position: PerpPosition, direction: PositionDirection, amount: u64)
    ensures
        ({
            let (after, r) = spec_increase_open_bids_and_asks(position, direction, amount);
            &&& direction == PositionDirection::Long ==> (if amount <= i64::MAX && position.open_bids
                + amount <= i64::MAX {
                r is Ok && after == (PerpPosition {
                    open_bids: (position.open_bids + amount) as i64,
                    ..position
                })
            } else {
                r is Err && after == position
            })
            &&& direction == PositionDirection::Short ==> (if amount <= i64::MAX
                && position.open_asks - amount >= i64::MIN {
                r is Ok && after == (PerpPosition {
                    open_asks: (position.open_asks - amount) as i64,
                    ..position
                })
            } else {
                r is Err && after == position
            })
        }),
{
}

/// Releasing an order's amount takes it from the open bids of a long (never
/// below zero) or gives it back to the open asks of a short (never above
/// zero), leaving the other side; without `update` nothing changes.
pub proof fn lemma_release_amounts(
    position: PerpPosition,
    direction: PositionDirection,
    amount: u64,
    update: bool,
)
    requires
        spec_decrease_open_bids_and_asks(position, direction, amount, update).1 is Ok,
    ensures
        ({
            let after = spec_decrease_open_bids_and_asks(position, direction, amount, update).0;
            &&& !update ==> after == position
            &&& update && direction == PositionDirection::Long ==> after == (PerpPosition {
                open_bids: (if position.open_bids - amount > 0 {
                    position.open_bids - amount
                } else {
                    0
                }) as i64,
                ..position
            })
            &&& update && direction == PositionDirection::Short ==> after == (PerpPosition {
                open_asks: (if position.open_asks + amount < 0 {
                    position.open_asks + amount
                } else {
                    0
                }) as i64,
                ..position
            })
        }),
{
}

} // verus!
