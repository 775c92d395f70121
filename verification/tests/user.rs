use mini_drift::error::ErrorCode;
use mini_drift::state::order_params::OrderParams;
use mini_drift::state::user::{Order, OrderStatus, OrderType, PositionDirection, User};

#[test]
fn force_get_perp_position_index_prefers_existing_market_position() {
    let mut user = User::default();
    const SOL_MARKET_INDEX: u16 = 0;
    const BTC_MARKET_INDEX: u16 = 1;
    user.perp_positions[0].base_asset_amount = 0;
    user.perp_positions[0].market_index = BTC_MARKET_INDEX;
    user.perp_positions[1].base_asset_amount = 10;
    user.perp_positions[1].market_index = SOL_MARKET_INDEX;
    let res = user.force_get_perp_position_index(SOL_MARKET_INDEX).unwrap();
    assert_eq!(res, 1);
    assert_ne!(res, 0);
}

#[test]
fn force_get_perp_position_index_reuses_available_position() {
    let mut user = User::default();
    const SOL_MARKET_INDEX: u16 = 0;
    const BTC_MARKET_INDEX: u16 = 1;
    const ETH_MARKET_INDEX: u16 = 2;
    user.perp_positions[0].base_asset_amount = 0;
    user.perp_positions[0].market_index = BTC_MARKET_INDEX;
    user.perp_positions[1].base_asset_amount = 10;
    user.perp_positions[1].market_index = ETH_MARKET_INDEX;
    user.perp_positions[2].base_asset_amount = 0;
    user.perp_positions[2].market_index = SOL_MARKET_INDEX;
    let res = user.force_get_perp_position_index(SOL_MARKET_INDEX).unwrap();
    assert_eq!(res, 0);
    assert_ne!(res, 2);
    assert_eq!(user.perp_positions[0].market_index, SOL_MARKET_INDEX);
}

#[test]
fn force_get_perp_position_index_errors_when_no_position_slot_available() {
    let mut user = User::default();
    const SOL_MARKET_INDEX: u16 = 0;
    user.perp_positions.iter_mut().enumerate().for_each(|(index, pos)| {
        pos.market_index = index as u16 + 1;
        pos.base_asset_amount = 1;
    });
    let res = user.force_get_perp_position_index(SOL_MARKET_INDEX);
    let err = res.unwrap_err();
    assert_eq!(err, ErrorCode::NoPerpPositionSlotAvailable);
}

#[test]
fn get_available_order_index_returns_first_non_open_order() {
    let mut user = User::default();
    user.orders[0].status = OrderStatus::Open;
    user.orders[1].status = OrderStatus::Open;
    user.orders[2].status = OrderStatus::Filled;
    user.orders[3].status = OrderStatus::Canceled;
    let index = user.get_available_order_index().unwrap();
    assert_eq!(index, 2);
    assert_ne!(index, 0);
    assert_ne!(index, 1);
}

#[test]
fn get_available_order_index_returns_none_when_all_orders_open() {
    let mut user = User::default();
    user.orders.iter_mut().for_each(|order| order.status = OrderStatus::Open);
    let index = user.get_available_order_index();
    assert!(index.is_none());
}

#[test]
fn force_get_available_order_index_errors_when_no_order_slot_available() {
    let mut user = User::default();
    user.orders.iter_mut().for_each(|order| order.status = OrderStatus::Open);
    let err = user.force_get_available_order_index().unwrap_err();
    assert_eq!(err, ErrorCode::NoOrderSlotAvailable);
}

#[test]
fn order_new_from_params_stores_params_and_protocol_fields() {
    let order_params = OrderParams {
        order_type: OrderType::Limit,
        direction: PositionDirection::Long,
        base_asset_amount: 10,
        price: 100,
        market_index: 2,
        reduce_only: false,
        post_only: true,
        immediate_or_cancel: false,
        max_ts: 12345,
    };
    let order = Order::new_from_params(order_params, 7, PositionDirection::Short);
    assert_eq!(order.status, OrderStatus::Open);
    assert_eq!(order.order_id, 7);
    assert_eq!(order.existing_position_direction, PositionDirection::Short);
    assert_eq!(order.base_asset_amount_filled, 0);
    assert_eq!(order.quote_asset_amount_filled, 0);
    assert_eq!(order.price, order_params.price);
    assert_eq!(order.market_index, order_params.market_index);
    assert_eq!(order.base_asset_amount, order_params.base_asset_amount);
    assert_eq!(order.order_type, order_params.order_type);
    assert_eq!(order.direction, order_params.direction);
    assert_eq!(order.reduce_only, order_params.reduce_only);
    assert_eq!(order.post_only, order_params.post_only);
    assert_eq!(order.immediate_or_cancel, order_params.immediate_or_cancel);
    assert_eq!(order.max_ts, order_params.max_ts);
}
