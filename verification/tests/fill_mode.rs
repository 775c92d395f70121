use mini_drift::state::fill_mode::FillMode;
use mini_drift::state::user::{Order, PositionDirection};

#[test]
pub fn fill_mode_is_liquidation_returns_true_for_liquidation() {
    let mode = FillMode::Liquidation;
    assert!(mode.is_liquidation());
}

#[test]
pub fn fill_mode_is_liquidation_returns_false_for_normal_fill() {
    let mode = FillMode::Fill;
    assert!(!mode.is_liquidation());
}

#[test]
pub fn fill_mode_is_ioc_returns_true_for_place_and_take_true() {
    let mode = FillMode::PlaceAndTake(true, 50);
    assert!(mode.is_ioc());
}

#[test]
pub fn fill_mode_is_ioc_returns_false_for_place_and_take_false() {
    let mode = FillMode::PlaceAndTake(false, 50);
    assert!(!mode.is_ioc());
}

#[test]
pub fn fill_mode_is_ioc_returns_false_for_normal_fill() {
    let mode = FillMode::Fill;
    assert!(!mode.is_ioc());
}

#[test]
fn fill_mode_get_limit_price_uses_order_limit_price_for_fill() {
    let mut order = Order::default();
    order.price = 100;
    let mode = FillMode::Fill;
    let res = mode.get_limit_price(&order).unwrap().unwrap();
    assert_eq!(res, 100);
}

#[test]
fn fill_mode_get_limit_price_uses_place_and_take_auction_percentage() {
    let mut order = Order::default();
    order.slot = 1000;
    order.auction_duration = 40;
    order.auction_start_price = 100;
    order.auction_end_price = 140;
    order.direction = PositionDirection::Long;
    let mode = FillMode::PlaceAndTake(false, 25);
    let result = mode.get_limit_price(&order).unwrap();
    assert_eq!(result, Some(110));
}

#[test]
fn fill_mode_get_limit_price_caps_place_and_take_percentage_at_100() {
    let mut order = Order::default();
    order.slot = 1000;
    order.auction_duration = 40;
    order.auction_start_price = 100;
    order.auction_end_price = 140;
    order.direction = PositionDirection::Long;
    let mode = FillMode::PlaceAndTake(false, 150);
    let result = mode.get_limit_price(&order).unwrap();
    assert_eq!(result, Some(140));
}

#[test]
fn fill_mode_get_limit_price_falls_back_to_order_limit_price_when_place_and_take_has_no_auction() {
    let mut order = Order::default();
    order.price = 120;
    order.auction_duration = 0;
    let mode = FillMode::PlaceAndTake(false, 50);
    let result = mode.get_limit_price(&order).unwrap();
    assert_eq!(result, Some(120));
}
