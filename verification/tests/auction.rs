use mini_drift::math::auction::calculate_auction_price;
use mini_drift::state::user::{Order, PositionDirection};

#[test]
pub fn calculate_auction_price_returns_long_price_partway_through_auction() {
    let mut order = Order::default();
    order.auction_duration = 10;
    order.auction_start_price = 100;
    order.auction_end_price = 110;
    order.direction = PositionDirection::Long;
    order.slot = 1000;
    let res = calculate_auction_price(&order, 1005);
    assert!(res.is_ok());
    let result = res.unwrap();
    assert_eq!(result, 105);
}

#[test]
pub fn calculate_auction_price_clamps_long_price_after_duration() {
    let mut order = Order::default();
    order.auction_duration = 10;
    order.auction_start_price = 100;
    order.auction_end_price = 110;
    order.direction = PositionDirection::Long;
    order.slot = 1000;
    let res = calculate_auction_price(&order, 1015);
    assert!(res.is_ok());
    let result = res.unwrap();
    assert_eq!(result, 110);
}

#[test]
pub fn calculate_auction_price_returns_short_price_partway_through_auction() {
    let mut order = Order::default();
    order.auction_duration = 10;
    order.auction_start_price = 100;
    order.auction_end_price = 90;
    order.direction = PositionDirection::Short;
    order.slot = 1000;
    let res = calculate_auction_price(&order, 1005);
    assert!(res.is_ok());
    let result = res.unwrap();
    assert_eq!(result, 95);
}
