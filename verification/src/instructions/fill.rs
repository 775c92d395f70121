use vstd::prelude::*;

use crate::controller::orders::{spec_update_order_after_fill, update_order_after_fill};
use crate::controller::position::{
    decrease_open_bids_and_asks, lemma_update_applies_delta, off_step, spec_decrease_open_bids_and_asks,
    spec_update_position_and_market, update_position_and_market, PositionDelta,
};
use crate::error::{ErrorCode, MiniDriftResult};
use crate::math::amm::{
    calculate_mark_price, lemma_mark_price_is_reserve_ratio, lemma_swap_stays_on_curve, spec_mark_price, spec_swap_base_asset, spec_update_amm_reserves,
    swap_base_asset, update_amm_reserves, SwapDirection,
};
use crate::math::amm_spread::{
    apply_spread_to_quote, calculate_spread, spec_apply_spread_to_quote, spec_spread,
};
use crate::math::constants::{BASE_DECIMALS, PRICE_PRECISION};
use crate::math::oracle::{
    is_oracle_valid, lemma_mark_divergence_bound, lemma_oracle_validity_checks, spec_mark_oracle_divergence, spec_oracle_validity,
    validate_mark_oracle_divergence,
};
use crate::math::orders::{calculate_quote_asset_amount_for_maker_order, spec_quote_for_maker_order};
use crate::math::position::{abs, update_type_defined};
use crate::math::safe_math::fit_u64;
use crate::state::events::{get_order_action_record, spec_order_action_record, OrderActionRecord};
use crate::state::fill_mode::FillMode;
use crate::state::oracle::OraclePriceData;
use crate::state::perp_market::{Amm, PerpMarket};
use crate::state::user::{
    spec_base_asset_amount_unfilled, Order, OrderStatus, PerpPosition, PositionDirection, User,
    UserView, MAX_ORDERS, MAX_PERP_POSITIONS,
};
use anchor_lang::prelude::Pubkey;

verus! {

/// A fill at `quote_asset_amount` for `base_asset_amount` respects a limit
/// price when a long pays no more, and a short receives no less, than the
/// base amount is worth at that price (rounded in the taker's favour).
pub open spec fn spec_validate_amm_fill_price(
    direction: PositionDirection,
    base_asset_amount: u64,
    quote_asset_amount: u64,
    limit_price: Option<u64>,
) -> MiniDriftResult<()> {
    match limit_price {
        None => Ok(()),
        Some(limit_price) => match spec_quote_for_maker_order(
            base_asset_amount,
            limit_price,
            BASE_DECIMALS,
            direction,
        ) {
            Err(e) => Err(e),
            Ok(limit_quote) => if (direction == PositionDirection::Long && quote_asset_amount
                > limit_quote) || (direction == PositionDirection::Short && quote_asset_amount
                < limit_quote) {
                Err(ErrorCode::InvalidFillPrice)
            } else {
                Ok(())
            },
        },
    }
}

/// The oracle confidence as a share of the oracle price, in price
/// precision; `MathError` for a price that is not positive or a share
/// beyond `u64`.
pub open spec fn spec_oracle_conf_pct(data: OraclePriceData) -> MiniDriftResult<u64> {
    if data.price <= 0 {
        Err(ErrorCode::MathError)
    } else {
        fit_u64(data.confidence * PRICE_PRECISION / (data.price as int))
    }
}

/// A long buys base from the AMM, a short sells base to it.
pub open spec fn swap_direction_for(direction: PositionDirection) -> SwapDirection {
    match direction {
        PositionDirection::Long => SwapDirection::Subtract,
        PositionDirection::Short => SwapDirection::Add,
    }
}

/// The order and position a fill may act on, and the market's mark price.
/// The order must exist, be open and belong to the market; the position
/// must exist and be the user's position in that market; the oracle must
/// be valid for the market and the mark price must stay close to it.
pub open spec fn spec_fill_subjects(
    u: UserView,
    taker_order_index: usize,
    taker_position_index: usize,
    market: PerpMarket,
    oracle_price_data: OraclePriceData,
) -> MiniDriftResult<(Order, PerpPosition, i64)> {
    if taker_order_index >= MAX_ORDERS {
        Err(ErrorCode::UnexpectedError)
    } else if u.orders[taker_order_index as int].status != OrderStatus::Open {
        Err(ErrorCode::InvalidOrderStatus)
    } else if u.orders[taker_order_index as int].market_index != market.market_index {
        Err(ErrorCode::InvalidMarketAccount)
    } else if taker_position_index >= MAX_PERP_POSITIONS {
        Err(ErrorCode::UnexpectedError)
    } else if !u.perp_positions[taker_position_index as int].spec_is_for(
        u.orders[taker_order_index as int].market_index,
    ) {
        Err(ErrorCode::InvalidPerpPositionDetected)
    } else {
        match spec_oracle_validity(
            oracle_price_data,
            market.oracle_max_delay,
            market.oracle_max_confidence,
        ) {
            Err(e) => Err(e),
            Ok(_) => match spec_mark_price(market.amm) {
                Err(e) => Err(e),
                Ok(mark_price) => match spec_mark_oracle_divergence(
                    mark_price,
                    oracle_price_data.price,
                ) {
                    Err(e) => Err(e),
                    Ok(_) => Ok(
                        (
                            u.orders[taker_order_index as int],
                            u.perp_positions[taker_position_index as int],
                            mark_price,
                        ),
                    ),
                },
            },
        }
    }
}

/// The base amount a fill takes (all that is unfilled of the order), the
/// quote amount the AMM moves for it, and that quote amount with the
/// market's spread for the order's side applied.
pub open spec fn spec_fill_pricing(
    order: Order,
    amm: Amm,
    oracle_price_data: OraclePriceData,
    mark_price: i64,
) -> MiniDriftResult<(u64, u64, u64)> {
    match spec_base_asset_amount_unfilled(order, None) {
        Err(e) => Err(e),
        Ok(base) => match spec_swap_base_asset(amm, base, swap_direction_for(order.direction)) {
            Err(e) => Err(e),
            Ok(quote) => match fit_u64(mark_price as int) {
                Err(e) => Err(e),
                Ok(reserve_price) => match spec_oracle_conf_pct(oracle_price_data) {
                    Err(e) => Err(e),
                    Ok(conf_pct) => match spec_spread(
                        amm.base_spread,
                        amm.max_spread,
                        amm.base_asset_amount_with_amm,
                        reserve_price,
                        conf_pct,
                        amm.mark_std,
                        amm.oracle_std,
                        amm.long_intensity_volume,
                        amm.short_intensity_volume,
                        amm.volume_24h,
                        amm.base_asset_amount_long,
                        amm.base_asset_amount_short,
                    ) {
                        Err(e) => Err(e),
                        Ok((long_spread, short_spread)) => match spec_apply_spread_to_quote(
                            quote,
                            long_spread,
                            short_spread,
                            order.direction,
                        ) {
                            Err(e) => Err(e),
                            Ok(quote_with_spread) => Ok((base, quote, quote_with_spread)),
                        },
                    },
                },
            },
        },
    }
}

/// Everything a fill against the AMM decides before it writes anything.
pub struct AmmFill {
    pub order: Order,
    pub position: PerpPosition,
    pub base_asset_amount: u64,
    pub quote_asset_amount: u64,
    pub quote_with_spread: u64,
    pub delta: PositionDelta,
    pub amm: Amm,
}

/// The signed change a fill makes to the taker's position: a long gains
/// base and pays quote (with spread), a short gives base and receives it.
pub open spec fn fill_delta(direction: PositionDirection, base: u64, quote_with_spread: u64) -> PositionDelta {
    match direction {
        PositionDirection::Long => PositionDelta {
            base_asset_amount: base as i64,
            quote_asset_amount: -quote_with_spread as i64,
        },
        PositionDirection::Short => PositionDelta {
            base_asset_amount: -base as i64,
            quote_asset_amount: quote_with_spread as i64,
        },
    }
}

/// The plan of a fill: subjects and pricing as above; base and quote with
/// spread must fit in an `i64`; the quote with spread, which is what the
/// taker pays or receives, must respect the order's limit price; and the
/// AMM after the swap must have moved the same quote amount.
pub open spec fn spec_amm_fill(
    u: UserView,
    taker_order_index: usize,
    taker_position_index: usize,
    market: PerpMarket,
    oracle_price_data: OraclePriceData,
) -> MiniDriftResult<AmmFill> {
    match spec_fill_subjects(
        u,
        taker_order_index,
        taker_position_index,
        market,
        oracle_price_data,
    ) {
        Err(e) => Err(e),
        Ok((order, position, mark_price)) => match spec_fill_pricing(
            order,
            market.amm,
            oracle_price_data,
            mark_price,
        ) {
            Err(e) => Err(e),
            Ok((base, quote, quote_with_spread)) => if base > i64::MAX || quote_with_spread
                > i64::MAX {
                Err(ErrorCode::MathError)
            } else {
                match spec_validate_amm_fill_price(
                    order.direction,
                    base,
                    quote_with_spread,
                    order.spec_limit_price(),
                ) {
                    Err(e) => Err(e),
                    Ok(_) => {
                        let (amm, moved) = spec_update_amm_reserves(
                            market.amm,
                            base,
                            swap_direction_for(order.direction),
                        );
                        match moved {
                            Err(e) => Err(e),
                            Ok(moved) => if moved != quote {
                                Err(ErrorCode::MathError)
                            } else {
                                Ok(
                                    AmmFill {
                                        order,
                                        position,
                                        base_asset_amount: base,
                                        quote_asset_amount: quote,
                                        quote_with_spread,
                                        delta: fill_delta(order.direction, base, quote_with_spread),
                                        amm,
                                    },
                                )
                            },
                        }
                    },
                }
            },
        },
    }
}

/// Whether filling the taker's order can reach the position update without
/// asking for the size of `i64::MIN` (see `update_type_defined`): the
/// position is refused for its step first, or the classification is
/// defined.
pub open spec fn fill_is_defined(
    u: UserView,
    taker_order_index: usize,
    taker_position_index: usize,
    market: PerpMarket,
    oracle_price_data: OraclePriceData,
) -> bool {
    spec_amm_fill(u, taker_order_index, taker_position_index, market, oracle_price_data) matches Ok(
        f,
    ) ==> (off_step(f.position.base_asset_amount, market.order_step_size) || update_type_defined(
        f.position.base_asset_amount,
        f.delta.base_asset_amount,
    ))
}

/// The outcome of filling the taker's order against the AMM: the user and
/// market after the fill and its receipt, or the error. After the plan,
/// the position and the market's user counters are updated with the
/// delta, the order's open bids or asks are released, the order records
/// the fill, and a completely filled order stops counting among the
/// position's and the user's open orders.
pub open spec fn spec_fill_perp_order_amm(
    u: UserView,
    taker: Pubkey,
    filler: Pubkey,
    taker_order_index: usize,
    taker_position_index: usize,
    market: PerpMarket,
    oracle_price_data: OraclePriceData,
    now: i64,
) -> MiniDriftResult<(UserView, PerpMarket, OrderActionRecord)> {
    match spec_amm_fill(u, taker_order_index, taker_position_index, market, oracle_price_data) {
        Err(e) => Err(e),
        Ok(f) => {
            let (position1, market1, updated) = spec_update_position_and_market(
                f.position,
                f.delta,
                PerpMarket { amm: f.amm, ..market },
            );
            let (position2, released) = spec_decrease_open_bids_and_asks(
                position1,
                f.order.direction,
                f.base_asset_amount,
                f.order.spec_update_open_bids_and_asks(),
            );
            let (order, recorded) = spec_update_order_after_fill(
                f.order,
                f.base_asset_amount,
                f.quote_with_spread,
            );
            match (updated, released, recorded) {
                (Ok(_), Ok(_), Ok(filled)) => if filled && position2.open_orders == 0 {
                    Err(ErrorCode::MathError)
                } else {
                    let position3 = if filled {
                        PerpPosition { open_orders: (position2.open_orders - 1) as u8, ..position2 }
                    } else {
                        position2
                    };
                    let open_orders: u8 = if filled && u.open_orders > 0 {
                        (u.open_orders - 1) as u8
                    } else {
                        u.open_orders
                    };
                    Ok(
                        (
                            UserView {
                                perp_positions: u.perp_positions.update(
                                    taker_position_index as int,
                                    position3,
                                ),
                                orders: u.orders.update(taker_order_index as int, order),
                                open_orders,
                                ..u
                            },
                            market1,
                            spec_order_action_record(
                                now,
                                f.order.market_index,
                                filler,
                                f.base_asset_amount,
                                f.quote_asset_amount,
                                taker,
                                order,
                            ),
                        ),
                    )
                },
                (Err(e), _, _) => Err(e),
                (Ok(_), Err(e), _) => Err(e),
                (Ok(_), Ok(_), Err(e)) => Err(e),
            }
        },
    }
}

/// A successful fill against the AMM moves base between the taker and the
/// AMM: the taker's position gains exactly what the AMM's net user base
/// gains, and the AMM's base reserve loses it. The order ends completely
/// filled, and the receipt reports the base filled and the quote amount by
/// which the AMM's quote reserve moved. Every other order and position slot,
/// the authority and the next order id are kept; the taker's open-order
/// count drops by one unless it was already zero, and so does the
/// position's.
pub proof fn lemma_fill_moves_base_between_taker_and_amm(
    u: UserView,
    taker: Pubkey,
    filler: Pubkey,
    taker_order_index: usize,
    taker_position_index: usize,
    market: PerpMarket,
    oracle_price_data: OraclePriceData,
    now: i64,
)
    requires
        u.spec_is_account(),
        spec_fill_perp_order_amm(
            u,
            taker,
            filler,
            taker_order_index,
            taker_position_index,
            market,
            oracle_price_data,
            now,
        ) is Ok,
    ensures
        ({
            let (after, market_after, record) = spec_fill_perp_order_amm(
                u,
                taker,
                filler,
                taker_order_index,
                taker_position_index,
                market,
                oracle_price_data,
                now,
            )->Ok_0;
            let oi = taker_order_index as int;
            let pi = taker_position_index as int;
            let moved = after.perp_positions[pi].base_asset_amount
                - u.perp_positions[pi].base_asset_amount;
            &&& moved == market_after.amm.base_asset_amount_with_amm
                - market.amm.base_asset_amount_with_amm
            &&& moved == market.amm.base_asset_reserve - market_after.amm.base_asset_reserve
            &&& u.orders[oi].direction == PositionDirection::Long ==> moved == record.base_asset_amount_filled
            &&& u.orders[oi].direction == PositionDirection::Short ==> moved == -record.base_asset_amount_filled
            &&& record.quote_asset_amount_filled == abs(
                market_after.amm.quote_asset_reserve - market.amm.quote_asset_reserve,
            )
            &&& after.orders[oi].status == OrderStatus::Filled
            &&& after.orders[oi].base_asset_amount_filled == after.orders[oi].base_asset_amount
            &&& record.taker_order == after.orders[oi]
            &&& after.orders.len() == u.orders.len()
            &&& after.perp_positions.len() == u.perp_positions.len()
            &&& forall|j: int|
                0 <= j < u.orders.len() && j != oi ==> #[trigger] after.orders[j] == u.orders[j]
            &&& forall|j: int|
                0 <= j < u.perp_positions.len() && j != pi ==> #[trigger] after.perp_positions[j]
                    == u.perp_positions[j]
            &&& after.authority == u.authority
            &&& after.next_order_id == u.next_order_id
            &&& after.open_orders == if u.open_orders > 0 {
                u.open_orders - 1
            } else {
                0
            }
            &&& after.perp_positions[pi].open_orders == u.perp_positions[pi].open_orders - 1
        }),
{
    let f = spec_amm_fill(
        u,
        taker_order_index,
        taker_position_index,
        market,
        oracle_price_data,
    )->Ok_0;
    let direction = swap_direction_for(f.order.direction);
    lemma_swap_stays_on_curve(market.amm, f.base_asset_amount, direction);
    lemma_update_applies_delta(f.position, f.delta, PerpMarket { amm: f.amm, ..market });
}

/// A successful fill respects the order's limit price on what the taker
/// actually pays or receives, spread included: a long's position pays no
/// more, and a short's receives no less, than the unfilled base amount is
/// worth at the limit price.
pub proof fn lemma_fill_respects_limit_price(
    u: UserView,
    taker: Pubkey,
    filler: Pubkey,
    taker_order_index: usize,
    taker_position_index: usize,
    market: PerpMarket,
    oracle_price_data: OraclePriceData,
    now: i64,
)
    requires
        u.spec_is_account(),
        spec_fill_perp_order_amm(
            u,
            taker,
            filler,
            taker_order_index,
            taker_position_index,
            market,
            oracle_price_data,
            now,
        ) is Ok,
    ensures
        ({
            let after = spec_fill_perp_order_amm(
                u,
                taker,
                filler,
                taker_order_index,
                taker_position_index,
                market,
                oracle_price_data,
                now,
            )->Ok_0.0;
            let order = u.orders[taker_order_index as int];
            let base = spec_base_asset_amount_unfilled(order, None)->Ok_0;
            let pi = taker_position_index as int;
            let quote_change = after.perp_positions[pi].quote_asset_amount
                - u.perp_positions[pi].quote_asset_amount;
            order.spec_limit_price() matches Some(limit) ==> {
                &&& order.direction == PositionDirection::Long ==> -quote_change
                    <= spec_quote_for_maker_order(base, limit, BASE_DECIMALS, PositionDirection::Long)->Ok_0
                &&& order.direction == PositionDirection::Short ==> quote_change
                    >= spec_quote_for_maker_order(base, limit, BASE_DECIMALS, PositionDirection::Short)->Ok_0
            }
        }),
{
    let f = spec_amm_fill(
        u,
        taker_order_index,
        taker_position_index,
        market,
        oracle_price_data,
    )->Ok_0;
    lemma_update_applies_delta(f.position, f.delta, PerpMarket { amm: f.amm, ..market });
}

/// A successful fill charges the taker the AMM's quote move with its own
/// side's spread from the market's spreads (computed from the AMM before
/// the fill, its mark price and the oracle's confidence): a long's position
/// quote falls by the quote plus quote times the long spread over price
/// precision, a short's rises by the quote minus quote times the short
/// spread over price precision (rounded down), and the order records the
/// same amount as filled quote.
pub proof fn lemma_fill_charges_own_side_spread(
    u: UserView,
    taker: Pubkey,
    filler: Pubkey,
    taker_order_index: usize,
    taker_position_index: usize,
    market: PerpMarket,
    oracle_price_data: OraclePriceData,
    now: i64,
)
    requires
        u.spec_is_account(),
        spec_fill_perp_order_amm(
            u,
            taker,
            filler,
            taker_order_index,
            taker_position_index,
            market,
            oracle_price_data,
            now,
        ) is Ok,
    ensures
        ({
            let (after, market_after, _) = spec_fill_perp_order_amm(
                u,
                taker,
                filler,
                taker_order_index,
                taker_position_index,
                market,
                oracle_price_data,
                now,
            )->Ok_0;
            let amm = market.amm;
            let mark_price = spec_mark_price(amm)->Ok_0;
            let conf_pct = spec_oracle_conf_pct(oracle_price_data)->Ok_0;
            let (long_spread, short_spread) = spec_spread(
                amm.base_spread,
                amm.max_spread,
                amm.base_asset_amount_with_amm,
                mark_price as u64,
                conf_pct,
                amm.mark_std,
                amm.oracle_std,
                amm.long_intensity_volume,
                amm.short_intensity_volume,
                amm.volume_24h,
                amm.base_asset_amount_long,
                amm.base_asset_amount_short,
            )->Ok_0;
            let quote = abs(market_after.amm.quote_asset_reserve - amm.quote_asset_reserve);
            let oi = taker_order_index as int;
            let pi = taker_position_index as int;
            let quote_change = after.perp_positions[pi].quote_asset_amount
                - u.perp_positions[pi].quote_asset_amount;
            let filled_quote = after.orders[oi].quote_asset_amount_filled
                - u.orders[oi].quote_asset_amount_filled;
            &&& mark_price >= 0
            &&& u.orders[oi].direction == PositionDirection::Long ==> {
                &&& quote_change == -(quote + quote * long_spread / (PRICE_PRECISION as int))
                &&& filled_quote == quote + quote * long_spread / (PRICE_PRECISION as int)
            }
            &&& u.orders[oi].direction == PositionDirection::Short ==> {
                &&& quote_change == quote - quote * short_spread / (PRICE_PRECISION as int)
                &&& filled_quote == quote - quote * short_spread / (PRICE_PRECISION as int)
            }
        }),
{
    let f = spec_amm_fill(
        u,
        taker_order_index,
        taker_position_index,
        market,
        oracle_price_data,
    )->Ok_0;
    lemma_swap_stays_on_curve(market.amm, f.base_asset_amount, swap_direction_for(f.order.direction));
    lemma_update_applies_delta(f.position, f.delta, PerpMarket { amm: f.amm, ..market });
}

/// The fill-price check: without a limit price every fill passes; with one,
/// a long passes exactly when its quote is at most the maker bid quote of
/// the base at the limit price, and a short exactly when its quote is at
/// least the maker ask quote; a failing fill is an invalid fill price.
pub proof fn lemma_fill_price_check(
    direction: PositionDirection,
    base_asset_amount: u64,
    quote_asset_amount: u64,
    limit_price: Option<u64>,
)
    ensures
        ({
            let r = spec_validate_amm_fill_price(direction, base_asset_amount, quote_asset_amount, limit_price);
            &&& limit_price is None ==> r is Ok
            &&& limit_price matches Some(p) ==> (spec_quote_for_maker_order(
                base_asset_amount,
                p,
                BASE_DECIMALS,
                direction,
            ) matches Ok(limit_quote) ==> {
                &&& direction == PositionDirection::Long ==> (if quote_asset_amount <= limit_quote {
                    r is Ok
                } else {
                    r == Err::<(), ErrorCode>(ErrorCode::InvalidFillPrice)
                })
                &&& direction == PositionDirection::Short ==> (if quote_asset_amount >= limit_quote {
                    r is Ok
                } else {
                    r == Err::<(), ErrorCode>(ErrorCode::InvalidFillPrice)
                })
            })
        }),
{
}

/// A fill only goes through for an open order of the market, on a position
/// held in that market, with a valid oracle reading (enough data points,
/// fresh and confident enough for the market) and a mark price within a
/// tenth of the oracle price; and it leaves the AMM's base reserve within
/// its bounds.
pub proof fn lemma_fill_requires_valid_subjects(
    u: UserView,
    taker: Pubkey,
    filler: Pubkey,
    taker_order_index: usize,
    taker_position_index: usize,
    market: PerpMarket,
    oracle_price_data: OraclePriceData,
    now: i64,
)
    requires
        u.spec_is_account(),
        spec_fill_perp_order_amm(
            u,
            taker,
            filler,
            taker_order_index,
            taker_position_index,
            market,
            oracle_price_data,
            now,
        ) is Ok,
    ensures
        ({
            let market_after = spec_fill_perp_order_amm(
                u,
                taker,
                filler,
                taker_order_index,
                taker_position_index,
                market,
                oracle_price_data,
                now,
            )->Ok_0.1;
            let order = u.orders[taker_order_index as int];
            let position = u.perp_positions[taker_position_index as int];
            let mark = market.amm.quote_asset_reserve * market.amm.peg_multiplier / (
            market.amm.base_asset_reserve as int);
            let distance = if mark > oracle_price_data.price {
                mark - oracle_price_data.price
            } else {
                oracle_price_data.price - mark
            };
            &&& taker_order_index < MAX_ORDERS
            &&& taker_position_index < MAX_PERP_POSITIONS
            &&& order.status == OrderStatus::Open
            &&& order.market_index == market.market_index
            &&& position.market_index == market.market_index
            &&& !position.spec_is_available()
            &&& oracle_price_data.has_sufficient_number_of_data_points
            &&& oracle_price_data.delay <= market.oracle_max_delay
            &&& oracle_price_data.confidence <= market.oracle_max_confidence
            &&& mark > 0 && oracle_price_data.price > 0
            &&& 10 * distance <= oracle_price_data.price
            &&& market.amm.min_base_asset_reserve <= market_after.amm.base_asset_reserve
                <= market.amm.max_base_asset_reserve
        }),
{
    let f = spec_amm_fill(
        u,
        taker_order_index,
        taker_position_index,
        market,
        oracle_price_data,
    )->Ok_0;
    lemma_mark_price_is_reserve_ratio(market.amm);
    lemma_mark_divergence_bound(spec_mark_price(market.amm)->Ok_0, oracle_price_data.price);
    lemma_oracle_validity_checks(oracle_price_data, market.oracle_max_delay, market.oracle_max_confidence);
    lemma_swap_stays_on_curve(market.amm, f.base_asset_amount, swap_direction_for(f.order.direction));
    lemma_update_applies_delta(f.position, f.delta, PerpMarket { amm: f.amm, ..market });
}

pub fn validate_amm_fill_price(
    direction: PositionDirection,
    base_asset_amount: u64,
    quote_asset_amount: u64,
    limit_price: Option<u64>,
) -> (r: MiniDriftResult<()>)
    ensures
        r == spec_validate_amm_fill_price(
            direction,
            base_asset_amount,
            quote_asset_amount,
            limit_price,
        ),
{
    let limit_price = match limit_price {
        Some(limit_price) => limit_price,
        None => return Ok(()),
    };
    let limit_quote_asset_amount = calculate_quote_asset_amount_for_maker_order(
        base_asset_amount,
        limit_price,
        BASE_DECIMALS,
        direction,
    )?;
    match direction {
        PositionDirection::Long => if quote_asset_amount > limit_quote_asset_amount {
            Err(ErrorCode::InvalidFillPrice)
        } else {
            Ok(())
        },
        PositionDirection::Short => if quote_asset_amount < limit_quote_asset_amount {
            Err(ErrorCode::InvalidFillPrice)
        } else {
            Ok(())
        },
    }
}

/// Fills the taker's order against the AMM and returns the receipt to
/// emit. Nothing is written unless every step succeeds.
pub fn handle_fill_perp_order_amm(
    taker_user: &mut User,
    taker: Pubkey,
    filler: Pubkey,
    taker_order_index: usize,
    taker_position_index: usize,
    market: &mut PerpMarket,
    oracle_price_data: &OraclePriceData,
    now: i64,
) -> (r: MiniDriftResult<OrderActionRecord>)
    requires
        fill_is_defined(
            old(taker_user)@,
            taker_order_index,
            taker_position_index,
            *old(market),
            *oracle_price_data,
        ),
    ensures
        match spec_fill_perp_order_amm(
            old(taker_user)@,
            taker,
            filler,
            taker_order_index,
            taker_position_index,
            *old(market),
            *oracle_price_data,
            now,
        ) {
            Ok((user, after, record)) => final(taker_user)@ == user && *final(market) == after
                && r == Ok::<OrderActionRecord, ErrorCode>(record),
            Err(e) => final(taker_user)@ == old(taker_user)@ && *final(market) == *old(market)
                && r == Err::<OrderActionRecord, ErrorCode>(e),
        },
{
    proof {
        vstd::array::array_len_matches_n(&taker_user.perp_positions);
        vstd::array::array_len_matches_n(&taker_user.orders);
    }
    if taker_order_index >= MAX_ORDERS {
        return Err(ErrorCode::UnexpectedError);
    }
    let order = taker_user.orders[taker_order_index];
    if order.status != OrderStatus::Open {
        return Err(ErrorCode::InvalidOrderStatus);
    }
    if order.market_index != market.market_index {
        return Err(ErrorCode::InvalidMarketAccount);
    }
    if taker_position_index >= MAX_PERP_POSITIONS {
        return Err(ErrorCode::UnexpectedError);
    }
    let position = taker_user.perp_positions[taker_position_index];
    if !position.is_for(order.market_index) {
        return Err(ErrorCode::InvalidPerpPositionDetected);
    }

    is_oracle_valid(oracle_price_data, market.oracle_max_delay, market.oracle_max_confidence)?;
    let mark_price = calculate_mark_price(&market.amm)?;
    validate_mark_oracle_divergence(mark_price, oracle_price_data)?;

    let base_asset_amount = order.get_base_asset_amount_unfilled(None)?;
    let order_direction = order.direction;
    let update_open_bids_and_asks = order.update_open_bids_and_asks();
    let swap_direction = match order_direction {
        PositionDirection::Long => SwapDirection::Subtract,
        PositionDirection::Short => SwapDirection::Add,
    };

    let quote_delta = swap_base_asset(&market.amm, base_asset_amount, swap_direction)?;
    if mark_price < 0 {
        return Err(ErrorCode::MathError);
    }
    let reserve_price = mark_price as u64;
    if oracle_price_data.price < 0 {
        return Err(ErrorCode::MathError);
    }
    let oracle_price = oracle_price_data.price as u128;
    proof {
        assert(oracle_price_data.confidence * PRICE_PRECISION <= u64::MAX * 1_000_000)
            by (nonlinear_arith);
    }
    let conf_pct_wide = (oracle_price_data.confidence as u128).checked_mul(
        PRICE_PRECISION,
    ).ok_or(ErrorCode::MathError)?.checked_div(oracle_price).ok_or(ErrorCode::MathError)?;
    if conf_pct_wide > u64::MAX as u128 {
        return Err(ErrorCode::MathError);
    }
    let oracle_conf_pct = conf_pct_wide as u64;
    let (long_spread, short_spread) = calculate_spread(
        market.amm.base_spread,
        market.amm.max_spread,
        market.amm.base_asset_amount_with_amm,
        reserve_price,
        oracle_conf_pct,
        market.amm.mark_std,
        market.amm.oracle_std,
        market.amm.long_intensity_volume,
        market.amm.short_intensity_volume,
        market.amm.volume_24h,
        market.amm.base_asset_amount_long,
        market.amm.base_asset_amount_short,
    )?;
    let quote_with_spread = apply_spread_to_quote(
        quote_delta,
        long_spread,
        short_spread,
        order_direction,
    )?;
    if base_asset_amount > i64::MAX as u64 {
        return Err(ErrorCode::MathError);
    }
    let base_asset_amount_i64 = base_asset_amount as i64;
    if quote_with_spread > i64::MAX as u64 {
        return Err(ErrorCode::MathError);
    }
    let quote_delta_i64 = quote_with_spread as i64;
    let limit_price = FillMode::Fill.get_limit_price(&order)?;
    validate_amm_fill_price(order_direction, base_asset_amount, quote_with_spread, limit_price)?;

    let delta = match order_direction {
        PositionDirection::Long => PositionDelta {
            base_asset_amount: base_asset_amount_i64,
            quote_asset_amount: -quote_delta_i64,
        },
        PositionDirection::Short => PositionDelta {
            base_asset_amount: -base_asset_amount_i64,
            quote_asset_amount: quote_delta_i64,
        },
    };

    let mut market_after_fill = *market;
    let amm_quote_delta = update_amm_reserves(
        &mut market_after_fill.amm,
        base_asset_amount,
        swap_direction,
    )?;
    if amm_quote_delta != quote_delta {
        return Err(ErrorCode::MathError);
    }

    let mut position_after_fill = position;
    let _realized_pnl = update_position_and_market(
        &mut position_after_fill,
        &delta,
        &mut market_after_fill,
    )?;
    decrease_open_bids_and_asks(
        &mut position_after_fill,
        &order_direction,
        base_asset_amount,
        update_open_bids_and_asks,
    )?;

    let mut order_after_fill = order;
    let is_filled = update_order_after_fill(
        &mut order_after_fill,
        base_asset_amount,
        quote_with_spread,
    )?;
    let mut open_orders_after_fill = taker_user.open_orders;
    if is_filled {
        position_after_fill.open_orders = position_after_fill.open_orders.checked_sub(1).ok_or(
            ErrorCode::MathError,
        )?;
        open_orders_after_fill = open_orders_after_fill.saturating_sub(1);
    }

    *market = market_after_fill;
    taker_user.perp_positions[taker_position_index] = position_after_fill;
    taker_user.orders[taker_order_index] = order_after_fill;
    taker_user.open_orders = open_orders_after_fill;

    Ok(
        get_order_action_record(
            now,
            order.market_index,
            filler,
            base_asset_amount,
            quote_delta,
            taker,
            order_after_fill,
        ),
    )
}

} // verus!
