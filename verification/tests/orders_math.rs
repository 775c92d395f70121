use mini_drift::math::orders::{
    calculate_quote_asset_amount_for_maker_order, should_cancel_reduce_only_order,
    should_expire_order,
};
use mini_drift::state::user::{Order, OrderStatus, PositionDirection};

#[test]
fn calculate_quote_asset_amount_for_maker_order_returns_quote_precision_value() {
    let quote_asset_amount = calculate_quote_asset_amount_for_maker_order(
        3_000_000_000,
        120_000_000,
        9,
        PositionDirection::Long,
    )
    .unwrap();
    assert_eq!(quote_asset_amount, 360_000_000);
}

#[test]
fn calculate_quote_asset_amount_for_maker_order_rounds_down_for_maker_long() {
    let quote_asset_amount =
        calculate_quote_asset_amount_for_maker_order(11, 10, 2, PositionDirection::Long).unwrap();
    assert_eq!(quote_asset_amount, 1);
}

#[test]
fn calculate_quote_asset_amount_for_maker_order_rounds_up_for_maker_short() {
    let quote_asset_amount =
        calculate_quote_asset_amount_for_maker_order(11, 10, 2, PositionDirection::Short).unwrap();
    assert_eq!(quote_asset_amount, 2);
}

#[test]
fn should_expire_order_returns_false_when_max_ts_is_zero() {
    let order = Order { max_ts: 0, ..Order::default() };
    assert_eq!(should_expire_order(&order, 10_000), false);
}

#[test]
fn should_expire_order_returns_false_before_or_at_max_ts() {
    let order = Order { max_ts: 1000, ..Order::default() };
    assert_eq!(should_expire_order(&order, 1000), false);
}

#[test]
fn should_expire_order_returns_true_after_max_ts() {
    let order = Order { max_ts: 1000, ..Order::default() };
    assert_eq!(should_expire_order(&order, 1001), true);
}

#[test]
fn should_cancel_reduce_only_order_returns_false_for_non_reduce_only_order() {
    let order = Order {
        reduce_only: false,
        status: OrderStatus::Open,
        direction: PositionDirection::Long,
        base_asset_amount: 10,
        ..Order::default()
    };
    assert_eq!(should_cancel_reduce_only_order(&order, 5, 1), Ok(false));
}

#[test]
fn should_cancel_reduce_only_order_returns_true_when_position_is_zero() {
    let order = Order {
        reduce_only: true,
        status: OrderStatus::Open,
        direction: PositionDirection::Short,
        base_asset_amount: 10,
        ..Order::default()
    };
    assert_eq!(should_cancel_reduce_only_order(&order, 0, 1), Ok(true));
}

#[test]
fn should_cancel_reduce_only_order_returns_true_when_order_same_direction_as_position() {
    let order = Order {
        reduce_only: true,
        status: OrderStatus::Open,
        direction: PositionDirection::Long,
        base_asset_amount: 10,
        ..Order::default()
    };
    assert_eq!(should_cancel_reduce_only_order(&order, 5, 1), Ok(true));
}

#[test]
fn should_cancel_reduce_only_order_returns_false_when_opposite_direction_has_enough_position() {
    let order = Order {
        reduce_only: true,
        status: OrderStatus::Open,
        direction: PositionDirection::Short,
        base_asset_amount: 10,
        ..Order::default()
    };
    assert_eq!(should_cancel_reduce_only_order(&order, 5, 1), Ok(false));
}

#[test]
fn should_cancel_reduce_only_order_returns_true_when_remaining_position_is_smaller_than_step_size() {
    let order = Order {
        reduce_only: true,
        status: OrderStatus::Open,
        direction: PositionDirection::Short,
        base_asset_amount: 10,
        ..Order::default()
    };
    assert_eq!(should_cancel_reduce_only_order(&order, 5, 10), Ok(true));
}

#[test]
fn should_cancel_reduce_only_order_returns_false_when_order_is_not_open() {
    let order = Order {
        reduce_only: true,
        status: OrderStatus::Filled,
        direction: PositionDirection::Long,
        base_asset_amount: 10,
        ..Order::default()
    };
    assert_eq!(should_cancel_reduce_only_order(&order, 0, 1), Ok(false));
}
