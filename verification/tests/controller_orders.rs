use mini_drift::controller::orders::place_perp_order;
use mini_drift::error::ErrorCode;
use mini_drift::state::order_params::OrderParams;
use mini_drift::state::user::{OrderStatus, OrderType, PositionDirection, User};

#[test]
pub fn place_perp_order_rejects_oracle_order() {
    let mut user = User::default();
    let order_params = OrderParams {
        order_type: OrderType::Oracle,
        direction: PositionDirection::Long,
        base_asset_amount: 0,
        price: 100,
        market_index: 2,
        reduce_only: false,
        post_only: false,
        immediate_or_cancel: false,
        max_ts: 100,
    };
    let res = place_perp_order(&mut user, order_params);
    let err = res.unwrap_err();
    assert_eq!(err, ErrorCode::UnsupportedOrderType);
    assert_eq!(user.open_orders, 0);
    assert_eq!(user.perp_positions[0].market_index, 0);
}

#[test]
pub fn place_perp_order_stores_limit_order() {
    let mut user = User::default();
    let order_params = OrderParams {
        order_type: OrderType::Limit,
        direction: PositionDirection::Long,
        base_asset_amount: 10,
        price: 100,
        market_index: 2,
        reduce_only: false,
        post_only: false,
        immediate_or_cancel: false,
        max_ts: 100,
    };
    let res = place_perp_order(&mut user, order_params);
    assert!(res.is_ok());
    assert_eq!(user.open_orders, 1);
    assert_eq!(user.orders[0].market_index, 2);
    assert_eq!(user.orders[0].status, OrderStatus::Open);
    assert_eq!(user.orders[0].base_asset_amount, 10);
    assert_eq!(user.perp_positions[0].market_index, 2);
    assert_eq!(user.perp_positions[0].open_orders, 1);
    assert_eq!(user.perp_positions[0].open_asks, 0);
    assert_eq!(user.perp_positions[0].open_bids, 10);
}

#[test]
pub fn place_perp_order_stores_short_limit_as_open_ask() {
    let mut user = User::default();
    let order_params = OrderParams {
        order_type: OrderType::Limit,
        direction: PositionDirection::Short,
        base_asset_amount: 10,
        price: 100,
        market_index: 2,
        reduce_only: false,
        post_only: false,
        immediate_or_cancel: false,
        max_ts: 100,
    };
    let res = place_perp_order(&mut user, order_params);
    assert!(res.is_ok());
    assert_eq!(user.perp_positions[0].open_asks, -10);
    assert_eq!(user.perp_positions[0].open_bids, 0);
}

#[test]
fn place_perp_order_stores_existing_position_direction() {
    let mut user = User::default();
    user.perp_positions[0].market_index = 2;
    user.perp_positions[0].base_asset_amount = -5;
    let order_params = OrderParams {
        order_type: OrderType::Limit,
        direction: PositionDirection::Long,
        base_asset_amount: 10,
        price: 100,
        market_index: 2,
        reduce_only: false,
        post_only: false,
        immediate_or_cancel: false,
        max_ts: 100,
    };
    let res = place_perp_order(&mut user, order_params);
    assert!(res.is_ok());
    assert_eq!(user.orders[0].existing_position_direction, PositionDirection::Short);
    assert_eq!(user.orders[0].market_index, 2);
    assert_eq!(user.orders[0].status, OrderStatus::Open);
    assert_eq!(user.next_order_id, 1);
}

#[test]
fn place_perp_order_errors_when_no_order_slot_available() {
    let mut user = User::default();
    for order in user.orders.iter_mut() {
        order.status = OrderStatus::Open;
    }
    let order_params = OrderParams {
        order_type: OrderType::Limit,
        direction: PositionDirection::Long,
        base_asset_amount: 10,
        price: 100,
        market_index: 2,
        reduce_only: false,
        post_only: false,
        immediate_or_cancel: false,
        max_ts: 100,
    };
    let res = place_perp_order(&mut user, order_params);
    let err = res.unwrap_err();
    assert_eq!(err, ErrorCode::NoOrderSlotAvailable);
    assert_eq!(user.perp_positions[0].market_index, 0);
}

#[test]
fn place_perp_order_errors_when_no_position_slot_available() {
    let mut user = User::default();
    user.perp_positions.iter_mut().enumerate().for_each(|(i, pos)| {
        pos.market_index = (i as u16) + 1;
        pos.base_asset_amount = 1;
    });
    let order_params = OrderParams {
        order_type: OrderType::Limit,
        direction: PositionDirection::Long,
        base_asset_amount: 10,
        price: 100,
        market_index: 999,
        reduce_only: false,
        post_only: false,
        immediate_or_cancel: false,
        max_ts: 100,
    };
    let res = place_perp_order(&mut user, order_params);
    let err = res.unwrap_err();
    assert_eq!(err, ErrorCode::NoPerpPositionSlotAvailable);
    assert_eq!(user.orders[0].status, OrderStatus::Init);
}
