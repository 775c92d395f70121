use vstd::prelude::*;

use crate::controller::position::{increase_open_bids_and_asks, spec_increase_open_bids_and_asks};
use crate::error::{ErrorCode, MiniDriftResult};
use crate::state::order_params::OrderParams;
use crate::math::position::abs;
use crate::math::safe_math::SafeMath;
use crate::state::user::{
    first_index, is_first_index, lemma_first_index, order_is_available, position_is_available, position_is_for, spec_base_asset_amount_unfilled,
    spec_force_perp_position_index, spec_new_order, Order, OrderStatus, OrderType, PerpPosition,
    PositionDirection, User, UserView,
};

verus! {

/// The direction of an existing position: long unless its base is negative.
pub open spec fn existing_direction(position: PerpPosition) -> PositionDirection {
    if position.base_asset_amount >= 0 {
        PositionDirection::Long
    } else {
        PositionDirection::Short
    }
}

/// The base of the user's position in a market: that of the first slot
/// that is for the market, or zero when there is none.
pub open spec fn existing_base(u: UserView, market_index: u16) -> i64 {
    match first_index(u.perp_positions, position_is_for(market_index)) {
        Some(i) => u.perp_positions[i].base_asset_amount,
        None => 0,
    }
}

/// A reduce-only order may only shrink an existing position: it is refused
/// when there is no position, when it points the same way as the position,
/// and when it is larger than the position (it would flip it).
pub open spec fn reduce_only_would_increase(
    direction: PositionDirection,
    base_asset_amount: u64,
    existing: i64,
) -> bool {
    ||| existing == 0
    ||| (direction == PositionDirection::Long && existing > 0)
    ||| (direction == PositionDirection::Short && existing < 0)
    ||| base_asset_amount > abs(existing as int)
}

/// The user after placing an order, and the result.
///
/// Only market and limit orders are accepted. The order goes into the
/// first free order slot, under the user's next order id, and the position
/// slot comes from `spec_force_perp_position_index`; without a free order
/// slot, with a reduce-only order that would not reduce the position in its
/// market, or without a position slot, the order is refused, and a refused
/// order changes nothing. Then the user's next order id and open-order count, the
/// position's open-order count, and the position's open bids (long) or
/// asks (short) grow, in that order; an overflow on the way stops there
/// with `MathError`, keeping what was written before it.
pub open spec fn spec_place_perp_order(u: UserView, params: OrderParams) -> (
    UserView,
    MiniDriftResult<()>,
) {
    if params.order_type != OrderType::Market && params.order_type != OrderType::Limit {
        (u, Err(ErrorCode::UnsupportedOrderType))
    } else {
        match first_index(u.orders, order_is_available()) {
            None => (u, Err(ErrorCode::NoOrderSlotAvailable)),
            Some(order_index) => if params.reduce_only && reduce_only_would_increase(
                params.direction,
                params.base_asset_amount,
                existing_base(u, params.market_index),
            ) {
                (u, Err(ErrorCode::ReduceOnlyOrderWouldIncreasePosition))
            } else {
                let (u1, position_result) = spec_force_perp_position_index(
                    u,
                    params.market_index,
                );
                match position_result {
                    Err(e) => (u1, Err(e)),
                    Ok(position_index) => {
                        let position = u1.perp_positions[position_index as int];
                        let order = spec_new_order(
                            params,
                            u1.next_order_id,
                            existing_direction(position),
                        );
                        let u2 = UserView { orders: u1.orders.update(order_index, order), ..u1 };
                        if u2.next_order_id == u32::MAX {
                            (u2, Err(ErrorCode::MathError))
                        } else {
                            let u3 = UserView { next_order_id: (u2.next_order_id + 1) as u32, ..u2 };
                            if u3.open_orders == u8::MAX {
                                (u3, Err(ErrorCode::MathError))
                            } else {
                                let u4 = UserView { open_orders: (u3.open_orders + 1) as u8, ..u3 };
                                if position.open_orders == u8::MAX {
                                    (u4, Err(ErrorCode::MathError))
                                } else {
                                    let counted = PerpPosition {
                                        open_orders: (position.open_orders + 1) as u8,
                                        ..position
                                    };
                                    let (placed, r) = spec_increase_open_bids_and_asks(
                                        counted,
                                        order.direction,
                                        order.base_asset_amount,
                                    );
                                    (
                                        UserView {
                                            perp_positions: u4.perp_positions.update(
                                                position_index as int,
                                                placed,
                                            ),
                                            ..u4
                                        },
                                        r,
                                    )
                                }
                            }
                        }
                    },
                }
            },
        }
    }
}

/// The order after a fill of `base_asset_amount` for `quote_asset_amount`,
/// and whether it is now completely filled (then its status is `Filled`).
/// The filled base amount is added first, then the filled quote amount; an
/// overflow stops there with `MathError`, keeping what was added before.
pub open spec fn spec_update_order_after_fill(
    order: Order,
    base_asset_amount: u64,
    quote_asset_amount: u64,
) -> (Order, MiniDriftResult<bool>) {
    if order.base_asset_amount_filled + base_asset_amount > u64::MAX {
        (order, Err(ErrorCode::MathError))
    } else {
        let based = Order {
            base_asset_amount_filled: (order.base_asset_amount_filled + base_asset_amount) as u64,
            ..order
        };
        if based.quote_asset_amount_filled + quote_asset_amount > u64::MAX {
            (based, Err(ErrorCode::MathError))
        } else {
            let quoted = Order {
                quote_asset_amount_filled: (based.quote_asset_amount_filled + quote_asset_amount)
                    as u64,
                ..based
            };
            match spec_base_asset_amount_unfilled(quoted, None) {
                Err(e) => (quoted, Err(e)),
                Ok(unfilled) => if unfilled == 0 {
                    (Order { status: OrderStatus::Filled, ..quoted }, Ok(true))
                } else {
                    (quoted, Ok(false))
                },
            }
        }
    }
}

pub fn update_order_after_fill(
    order: &mut Order,
    base_asset_amount: u64,
    quote_asset_amount: u64,
) -> (r: MiniDriftResult<bool>)
    ensures
        (*final(order), r) == spec_update_order_after_fill(
            *old(order),
            base_asset_amount,
            quote_asset_amount,
        ),
{
    order.base_asset_amount_filled = order.base_asset_amount_filled.safe_add(base_asset_amount)?;
    order.quote_asset_amount_filled = order.quote_asset_amount_filled.safe_add(
        quote_asset_amount,
    )?;
    let is_filled = order.get_base_asset_amount_unfilled(None)? == 0;
    if is_filled {
        order.status = OrderStatus::Filled;
    }
    Ok(is_filled)
}

pub fn place_perp_order(user: &mut User, order_params: OrderParams) -> (r: MiniDriftResult<()>)
    ensures
        (final(user)@, r) == spec_place_perp_order(old(user)@, order_params),
{
    if order_params.order_type != OrderType::Market && order_params.order_type
        != OrderType::Limit {
        return Err(ErrorCode::UnsupportedOrderType);
    }
    let order_index = user.force_get_available_order_index()?;
    if order_params.reduce_only {
        let existing = match user.get_perp_position_index(order_params.market_index) {
            Some(index) => user.perp_positions[index].base_asset_amount,
            None => 0,
        };
        let existing_size: u64 = if existing < 0 {
            (-(existing as i128)) as u64
        } else {
            existing as u64
        };
        let would_increase = existing == 0 || (order_params.direction == PositionDirection::Long
            && existing > 0) || (order_params.direction == PositionDirection::Short && existing
            < 0) || order_params.base_asset_amount > existing_size;
        if would_increase {
            return Err(ErrorCode::ReduceOnlyOrderWouldIncreasePosition);
        }
    }
    let ghost u1_before = user@;
    let position_index = user.force_get_perp_position_index(order_params.market_index)?;
    proof {
        vstd::array::array_len_matches_n(&user.perp_positions);
        vstd::array::array_len_matches_n(&user.orders);
    }
    let existing_position_direction = if user.perp_positions[position_index].base_asset_amount
        >= 0 {
        PositionDirection::Long
    } else {
        PositionDirection::Short
    };

    let new_order = Order::new_from_params(
        order_params,
        user.next_order_id,
        existing_position_direction,
    );
    user.orders[order_index] = new_order;
    user.next_order_id = user.next_order_id.checked_add(1).ok_or(ErrorCode::MathError)?;

    user.open_orders = user.open_orders.checked_add(1).ok_or(ErrorCode::MathError)?;
    let mut position = user.perp_positions[position_index];
    position.open_orders = position.open_orders.checked_add(1).ok_or(ErrorCode::MathError)?;
    let result = increase_open_bids_and_asks(
        &mut position,
        &new_order.direction,
        new_order.base_asset_amount,
    );
    user.perp_positions[position_index] = position;
    result
}

/// An order refused for its type, for want of an order or position slot,
/// or for being reduce-only without reducing, leaves the user as it was.
pub proof fn lemma_refused_order_changes_nothing(u: UserView, params: OrderParams)
    ensures
        ({
            let (after, r) = spec_place_perp_order(u, params);
            (r == Err::<(), ErrorCode>(ErrorCode::UnsupportedOrderType) || r == Err::<
                (),
                ErrorCode,
            >(ErrorCode::NoOrderSlotAvailable) || r == Err::<(), ErrorCode>(
                ErrorCode::ReduceOnlyOrderWouldIncreasePosition,
            ) || r == Err::<(), ErrorCode>(ErrorCode::NoPerpPositionSlotAvailable)) ==> after
                == u
        }),
{
}

/// A placed order is stored, open, in the first free order slot under the
/// user's next order id; the user's next id and open-order count grow by
/// one; the position slot it was placed for then belongs to its market,
/// counts one more open order, and holds the order's amount among its open
/// bids (long) or asks (short); every other order and position is kept.
pub proof fn lemma_placed_order_is_recorded(u: UserView, params: OrderParams)
    requires
        u.spec_is_account(),
        spec_place_perp_order(u, params).1 is Ok,
    ensures
        ({
            let (after, _) = spec_place_perp_order(u, params);
            let order_index = first_index(u.orders, order_is_available())->Some_0;
            let position_index = spec_force_perp_position_index(
                u,
                params.market_index,
            ).1->Ok_0 as int;
            let before = u.perp_positions[position_index];
            let placed = after.perp_positions[position_index];
            &&& 0 <= order_index < u.orders.len()
            &&& 0 <= position_index < u.perp_positions.len()
            &&& after.orders == u.orders.update(
                order_index,
                spec_new_order(params, u.next_order_id, existing_direction(before)),
            )
            &&& after.orders[order_index].status == OrderStatus::Open
            &&& after.next_order_id == u.next_order_id + 1
            &&& after.open_orders == u.open_orders + 1
            &&& after.authority == u.authority
            &&& after.perp_positions.len() == u.perp_positions.len()
            &&& forall|j: int|
                0 <= j < u.perp_positions.len() && j != position_index
                    ==> #[trigger] after.perp_positions[j] == u.perp_positions[j]
            &&& placed.market_index == params.market_index
            &&& placed.spec_is_for(params.market_index)
            &&& placed.base_asset_amount == before.base_asset_amount
            &&& placed.open_orders == before.open_orders + 1
            &&& params.direction == PositionDirection::Long ==> placed.open_bids
                == before.open_bids + params.base_asset_amount && placed.open_asks
                == before.open_asks
            &&& params.direction == PositionDirection::Short ==> placed.open_asks
                == before.open_asks - params.base_asset_amount && placed.open_bids
                == before.open_bids
        }),
{
    lemma_first_index(u.orders, order_is_available());
    lemma_first_index(u.perp_positions, position_is_for(params.market_index));
    lemma_first_index(u.perp_positions, position_is_available());
    let (after, _) = spec_place_perp_order(u, params);
    let order_index = first_index(u.orders, order_is_available())->Some_0;
    let (u1, pr) = spec_force_perp_position_index(u, params.market_index);
    let position_index = pr->Ok_0 as int;
    match first_index(u.perp_positions, position_is_for(params.market_index)) {
        Some(i) => {
            assert(position_is_for(params.market_index)(u.perp_positions[i]));
            assert(position_index == i);
            assert(u1 == u);
        },
        None => {
            let j = first_index(u.perp_positions, position_is_available())->Some_0;
            assert(position_index == j);
            assert(u1.perp_positions[j].market_index == params.market_index);
        },
    }
    assert(after.orders == u.orders.update(
        order_index,
        spec_new_order(params, u.next_order_id, existing_direction(u.perp_positions[position_index])),
    ));
}

/// A fill adds its base and quote amounts to what the order has filled, and
/// the order is then filled (and its status says so) exactly when all of
/// its base amount is filled; nothing else of the order changes.
pub proof fn lemma_fill_accumulates_on_order(order: Order, base_asset_amount: u64, quote_asset_amount: u64)
    requires
        spec_update_order_after_fill(order, base_asset_amount, quote_asset_amount).1 is Ok,
    ensures
        ({
            let (after, r) = spec_update_order_after_fill(order, base_asset_amount, quote_asset_amount);
            let filled = r->Ok_0;
            &&& after.base_asset_amount_filled == order.base_asset_amount_filled + base_asset_amount
            &&& after.quote_asset_amount_filled == order.quote_asset_amount_filled
                + quote_asset_amount
            &&& after.base_asset_amount_filled <= after.base_asset_amount
            &&& filled == (after.base_asset_amount_filled == after.base_asset_amount)
            &&& after.status == (if filled { OrderStatus::Filled } else { order.status })
            &&& after == (Order {
                base_asset_amount_filled: after.base_asset_amount_filled,
                quote_asset_amount_filled: after.quote_asset_amount_filled,
                status: after.status,
                ..order
            })
        }),
{
}

/// A reduce-only order of an accepted type, with a free order slot, is
/// refused when the user has no position in its market, when it points the
/// same way as that position, or when it is larger than the position; it
/// is never refused for being reduce-only otherwise.
pub proof fn lemma_reduce_only_refusal(u: UserView, params: OrderParams)
    requires
        u.spec_is_account(),
        params.reduce_only,
        params.order_type == OrderType::Market || params.order_type == OrderType::Limit,
        exists|k: int| 0 <= k < u.orders.len() && (#[trigger] u.orders[k]).spec_is_available(),
    ensures
        ({
            let r = spec_place_perp_order(u, params).1;
            let s = u.perp_positions;
            &&& (forall|j: int| 0 <= j < s.len() ==> !(#[trigger] s[j]).spec_is_for(
                params.market_index,
            )) ==> r == Err::<(), ErrorCode>(ErrorCode::ReduceOnlyOrderWouldIncreasePosition)
            &&& forall|i: int|
                0 <= i < s.len() && (#[trigger] s[i]).spec_is_for(params.market_index) && (forall|
                    j: int,
                | 0 <= j < i ==> !(#[trigger] s[j]).spec_is_for(params.market_index)) ==> {
                    let b = s[i].base_asset_amount;
                    let size: int = if b < 0 { -b } else { b as int };
                    (r == Err::<(), ErrorCode>(ErrorCode::ReduceOnlyOrderWouldIncreasePosition))
                        == (b == 0 || (params.direction == PositionDirection::Long && b > 0) || (
                    params.direction == PositionDirection::Short && b < 0)
                        || params.base_asset_amount > size)
                }
        }),
{
    lemma_first_index(u.orders, order_is_available());
    lemma_first_index(u.perp_positions, position_is_for(params.market_index));
    lemma_first_index(u.perp_positions, position_is_available());
    let k = choose|k: int| 0 <= k < u.orders.len() && (#[trigger] u.orders[k]).spec_is_available();
    assert(order_is_available()(u.orders[k]));
    let s = u.perp_positions;
    assert forall|i: int|
        0 <= i < s.len() && (#[trigger] s[i]).spec_is_for(params.market_index) && (forall|j: int|
            0 <= j < i ==> !(#[trigger] s[j]).spec_is_for(params.market_index)) implies {
        let b = s[i].base_asset_amount;
        let size: int = if b < 0 { -b } else { b as int };
        (spec_place_perp_order(u, params).1 == Err::<(), ErrorCode>(
            ErrorCode::ReduceOnlyOrderWouldIncreasePosition,
        )) == (b == 0 || (params.direction == PositionDirection::Long && b > 0) || (
        params.direction == PositionDirection::Short && b < 0) || params.base_asset_amount > size)
    } by {
        assert(is_first_index(s, position_is_for(params.market_index), i));
        lemma_place_never_reports_reduce_only_later(u, params);
    }
    if forall|j: int| 0 <= j < s.len() ==> !(#[trigger] s[j]).spec_is_for(params.market_index) {
        if first_index(s, position_is_for(params.market_index)) is Some {
            let i = first_index(s, position_is_for(params.market_index))->Some_0;
            assert(position_is_for(params.market_index)(s[i]));
        }
    }
}

/// Past the reduce-only check, placing never reports a reduce-only refusal.
proof fn lemma_place_never_reports_reduce_only_later(u: UserView, params: OrderParams)
    ensures
        !(params.reduce_only && reduce_only_would_increase(
            params.direction,
            params.base_asset_amount,
            existing_base(u, params.market_index),
        )) ==> spec_place_perp_order(u, params).1 != Err::<(), ErrorCode>(
            ErrorCode::ReduceOnlyOrderWouldIncreasePosition,
        ),
{
}

} // verus!
