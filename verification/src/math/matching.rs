use vstd::prelude::*;

use crate::error::{ErrorCode, MiniDriftResult};
use crate::state::user::{spec_is_resting_limit_order, Order, OrderType, PositionDirection};

verus! {

/// A maker's bid is crossed by a taker price at or below it; a maker's ask
/// by a taker price at or above it.
pub open spec fn spec_do_orders_cross(
    maker_direction: PositionDirection,
    maker_price: u64,
    taker_price: u64,
) -> bool {
    if maker_direction == PositionDirection::Long {
        taker_price <= maker_price
    } else {
        taker_price >= maker_price
    }
}

/// Whether `maker_order` takes the maker side against `taker_order` at
/// `slot`. A post-only taker never meets a maker, a maker must rest on the
/// book, a resting maker wins against a taker that does not rest, a
/// post-only maker wins, and otherwise the order whose auction ended first
/// (slot plus auction duration) is the maker.
pub open spec fn spec_is_maker_for_taker(maker_order: Order, taker_order: Order, slot: u64) -> MiniDriftResult<bool> {
    if taker_order.post_only {
        Ok(false)
    } else {
        match spec_is_resting_limit_order(maker_order, slot) {
            Err(e) => Err(e),
            Ok(false) => Ok(false),
            Ok(true) => match spec_is_resting_limit_order(taker_order, slot) {
                Err(e) => Err(e),
                Ok(false) => Ok(true),
                Ok(true) => if maker_order.post_only {
                    Ok(true)
                } else if maker_order.slot + maker_order.auction_duration > u64::MAX
                    || taker_order.slot + taker_order.auction_duration > u64::MAX {
                    Err(ErrorCode::MathError)
                } else {
                    Ok(maker_order.slot + maker_order.auction_duration <= taker_order.slot
                        + taker_order.auction_duration)
                },
            },
        }
    }
}

pub fn do_orders_cross(maker_direction: PositionDirection, maker_price: u64, taker_price: u64) -> (r:
    bool)
    ensures
        r == spec_do_orders_cross(maker_direction, maker_price, taker_price),
{
    if maker_direction == PositionDirection::Long {
        taker_price <= maker_price
    } else {
        taker_price >= maker_price
    }
}

pub fn are_orders_same_market_but_different_sides(maker_order: &Order, taker_order: &Order) -> (r:
    bool)
    ensures
        r == (maker_order.market_index == taker_order.market_index && maker_order.direction
            != taker_order.direction),
{
    if maker_order.market_index != taker_order.market_index {
        false
    } else if maker_order.direction == taker_order.direction {
        false
    } else {
        true
    }
}

pub fn is_maker_for_taker(maker_order: &Order, taker_order: &Order, slot: u64) -> (r:
    MiniDriftResult<bool>)
    ensures
        r == spec_is_maker_for_taker(*maker_order, *taker_order, slot),
{
    if taker_order.post_only {
        return Ok(false);
    } else if !maker_order.is_resting_limit_order(slot)? {
        return Ok(false);
    } else if !taker_order.is_resting_limit_order(slot)? {
        return Ok(true);
    } else if maker_order.post_only {
        return Ok(true);
    } else {
        let maker_ready = maker_order.slot.checked_add(maker_order.auction_duration as u64).ok_or(
            ErrorCode::MathError,
        )?;
        let taker_ready = taker_order.slot.checked_add(taker_order.auction_duration as u64).ok_or(
            ErrorCode::MathError,
        )?;
        return Ok(maker_ready <= taker_ready);
    }
}

/// Two orders both take the maker side against each other only on a tie:
/// both rest on the book, neither is post-only, and their auctions end at
/// the same slot.
pub proof fn lemma_both_makers_only_on_a_tie(first: Order, second: Order, slot: u64)
    requires
        spec_is_maker_for_taker(first, second, slot) == Ok::<bool, ErrorCode>(true),
        spec_is_maker_for_taker(second, first, slot) == Ok::<bool, ErrorCode>(true),
    ensures
        !first.post_only,
        !second.post_only,
        spec_is_resting_limit_order(first, slot) == Ok::<bool, ErrorCode>(true),
        spec_is_resting_limit_order(second, slot) == Ok::<bool, ErrorCode>(true),
        first.slot + first.auction_duration == second.slot + second.auction_duration,
{
}

/// A post-only taker is never matched against a maker.
pub proof fn lemma_post_only_taker_has_no_maker(maker_order: Order, taker_order: Order, slot: u64)
    requires
        taker_order.post_only,
    ensures
        spec_is_maker_for_taker(maker_order, taker_order, slot) == Ok::<bool, ErrorCode>(false),
{
}

/// A post-only limit maker is the maker for any taker that is not post-only,
/// whatever the slots and auction durations; the only failure is the
/// taker's own auction check, for a taker limit order with an auction
/// asked about at a slot before its own.
pub proof fn lemma_post_only_maker_is_maker(maker_order: Order, taker_order: Order, slot: u64)
    requires
        !taker_order.post_only,
        maker_order.post_only,
        maker_order.order_type == OrderType::Limit || maker_order.order_type
            == OrderType::TriggerLimit,
    ensures
        spec_is_maker_for_taker(maker_order, taker_order, slot) == if (taker_order.order_type
            == OrderType::Limit || taker_order.order_type == OrderType::TriggerLimit)
            && !taker_order.post_only && taker_order.auction_duration != 0 && slot
            < taker_order.slot {
            Err::<bool, ErrorCode>(ErrorCode::MathError)
        } else {
            Ok::<bool, ErrorCode>(true)
        },
{
}

/// Between two resting limit orders that are not post-only, the maker is
/// the one whose auction ended first (ties go to the maker side).
pub proof fn lemma_earlier_auction_end_is_maker(maker_order: Order, taker_order: Order, slot: u64)
    requires
        !taker_order.post_only,
        !maker_order.post_only,
        spec_is_resting_limit_order(maker_order, slot) == Ok::<bool, ErrorCode>(true),
        spec_is_resting_limit_order(taker_order, slot) == Ok::<bool, ErrorCode>(true),
        maker_order.slot + maker_order.auction_duration <= u64::MAX,
        taker_order.slot + taker_order.auction_duration <= u64::MAX,
    ensures
        spec_is_maker_for_taker(maker_order, taker_order, slot) == Ok::<bool, ErrorCode>(
            maker_order.slot + maker_order.auction_duration <= taker_order.slot
                + taker_order.auction_duration,
        ),
{
}

/// A maker's bid is crossed by exactly the taker prices at or below it, and
/// a maker's ask by exactly those at or above it; so a price that crosses
/// keeps crossing as it moves further through the maker's price.
pub proof fn lemma_crossing_prices(maker_direction: PositionDirection, maker_price: u64, taker_price: u64, further: u64)
    ensures
        maker_direction == PositionDirection::Long ==> (spec_do_orders_cross(
            maker_direction,
            maker_price,
            taker_price,
        ) <==> taker_price <= maker_price),
        maker_direction == PositionDirection::Short ==> (spec_do_orders_cross(
            maker_direction,
            maker_price,
            taker_price,
        ) <==> taker_price >= maker_price),
        maker_direction == PositionDirection::Long && further <= taker_price
            && spec_do_orders_cross(maker_direction, maker_price, taker_price)
            ==> spec_do_orders_cross(maker_direction, maker_price, further),
        maker_direction == PositionDirection::Short && further >= taker_price
            && spec_do_orders_cross(maker_direction, maker_price, taker_price)
            ==> spec_do_orders_cross(maker_direction, maker_price, further),
{
}

} // verus!
