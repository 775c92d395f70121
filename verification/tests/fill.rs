use anchor_lang::prelude::Pubkey;
use mini_drift::error::ErrorCode;
use mini_drift::instructions::fill::{handle_fill_perp_order_amm, validate_amm_fill_price};
use mini_drift::math::constants::{PEG_PRECISION, PRICE_PRECISION};
use mini_drift::state::oracle::OraclePriceData;
use mini_drift::state::perp_market::{Amm, PerpMarket};
use mini_drift::state::user::{Order, OrderStatus, OrderType, PerpPosition, PositionDirection, User};

fn test_market(market_index: u16) -> PerpMarket {
    PerpMarket {
        market_index,
        amm: Amm {
            base_asset_reserve: 100,
            quote_asset_reserve: 100,
            peg_multiplier: PEG_PRECISION,
            min_base_asset_reserve: 50,
            max_base_asset_reserve: 150,
            order_step_size: 1,
            ..Amm::default()
        },
        ..PerpMarket::default()
    }
}

fn valid_oracle_price_data() -> OraclePriceData {
    OraclePriceData {
        price: i64::try_from(PRICE_PRECISION).unwrap(),
        confidence: 0,
        delay: 0,
        has_sufficient_number_of_data_points: true,
        sequence_id: 1,
    }
}

fn open_order(market_index: u16, direction: PositionDirection, base_asset_amount: u64) -> Order {
    Order {
        market_index,
        direction,
        base_asset_amount,
        order_type: OrderType::Limit,
        status: OrderStatus::Open,
        ..Order::default()
    }
}

fn position_with_open_order(
    market_index: u16,
    direction: PositionDirection,
    base_asset_amount: u64,
) -> PerpPosition {
    let mut position = PerpPosition { market_index, open_orders: 1, ..PerpPosition::default() };
    match direction {
        PositionDirection::Long => {
            position.open_bids = i64::try_from(base_asset_amount).unwrap();
        }
        PositionDirection::Short => {
            position.open_asks = -i64::try_from(base_asset_amount).unwrap();
        }
    }
    position
}

#[test]
fn validate_amm_fill_price_uses_scaled_price_precision() {
    let result = validate_amm_fill_price(
        PositionDirection::Long,
        3_000_000_000,
        360_000_000,
        Some(120_000_000),
    );
    assert_eq!(result, Ok(()));
    let result = validate_amm_fill_price(
        PositionDirection::Long,
        3_000_000_000,
        360_000_001,
        Some(120_000_000),
    );
    assert_eq!(result, Err(ErrorCode::InvalidFillPrice));
}

#[test]
fn handle_fill_perp_order_amm_fills_long_order_and_decreases_open_bids() {
    let mut user = User::default();
    user.open_orders = 1;
    user.orders[0] = open_order(0, PositionDirection::Long, 20);
    user.perp_positions[0] = position_with_open_order(0, PositionDirection::Long, 20);
    let mut market = test_market(0);
    let result = handle_fill_perp_order_amm(
        &mut user,
        Pubkey::default(),
        Pubkey::default(),
        0,
        0,
        &mut market,
        &valid_oracle_price_data(),
        0,
    );
    assert_eq!(result.map(|_| ()), Ok(()));
    assert_eq!(market.amm.base_asset_reserve, 80);
    assert_eq!(market.amm.quote_asset_reserve, 125);
    assert_eq!(user.perp_positions[0].base_asset_amount, 20);
    assert_eq!(user.perp_positions[0].quote_asset_amount, -25);
    assert_eq!(user.perp_positions[0].open_orders, 0);
    assert_eq!(user.perp_positions[0].open_bids, 0);
    assert_eq!(user.open_orders, 0);
    assert_eq!(user.orders[0].base_asset_amount_filled, 20);
    assert_eq!(user.orders[0].quote_asset_amount_filled, 25);
    assert_eq!(user.orders[0].status, OrderStatus::Filled);
}

#[test]
fn handle_fill_perp_order_amm_fills_short_order_and_decreases_open_asks() {
    let mut user = User::default();
    user.open_orders = 1;
    user.orders[0] = open_order(0, PositionDirection::Short, 25);
    user.perp_positions[0] = position_with_open_order(0, PositionDirection::Short, 25);
    let mut market = test_market(0);
    let result = handle_fill_perp_order_amm(
        &mut user,
        Pubkey::default(),
        Pubkey::default(),
        0,
        0,
        &mut market,
        &valid_oracle_price_data(),
        0,
    );
    assert_eq!(result.map(|_| ()), Ok(()));
    assert_eq!(market.amm.base_asset_reserve, 125);
    assert_eq!(market.amm.quote_asset_reserve, 80);
    assert_eq!(user.perp_positions[0].base_asset_amount, -25);
    assert_eq!(user.perp_positions[0].quote_asset_amount, 20);
    assert_eq!(user.perp_positions[0].open_orders, 0);
    assert_eq!(user.perp_positions[0].open_asks, 0);
    assert_eq!(user.open_orders, 0);
    assert_eq!(user.orders[0].base_asset_amount_filled, 25);
    assert_eq!(user.orders[0].quote_asset_amount_filled, 20);
    assert_eq!(user.orders[0].status, OrderStatus::Filled);
}

#[test]
fn handle_fill_perp_order_amm_rejects_non_open_order_before_mutation() {
    let mut user = User::default();
    user.open_orders = 1;
    user.orders[0] = open_order(0, PositionDirection::Long, 20);
    user.orders[0].status = OrderStatus::Canceled;
    user.perp_positions[0] = position_with_open_order(0, PositionDirection::Long, 20);
    let mut market = test_market(0);
    let original_amm = market.amm;
    let result = handle_fill_perp_order_amm(
        &mut user,
        Pubkey::default(),
        Pubkey::default(),
        0,
        0,
        &mut market,
        &valid_oracle_price_data(),
        0,
    );
    assert_eq!(result.map(|_| ()), Err(ErrorCode::InvalidOrderStatus));
    assert_eq!(market.amm, original_amm);
    assert_eq!(user.orders[0].base_asset_amount_filled, 0);
    assert_eq!(user.perp_positions[0].base_asset_amount, 0);
    assert_eq!(user.perp_positions[0].open_bids, 20);
}

#[test]
fn handle_fill_perp_order_amm_rejects_wrong_market_before_mutation() {
    let mut user = User::default();
    user.open_orders = 1;
    user.orders[0] = open_order(1, PositionDirection::Long, 20);
    user.perp_positions[0] = position_with_open_order(1, PositionDirection::Long, 20);
    let mut market = test_market(0);
    let original_amm = market.amm;
    let result = handle_fill_perp_order_amm(
        &mut user,
        Pubkey::default(),
        Pubkey::default(),
        0,
        0,
        &mut market,
        &valid_oracle_price_data(),
        0,
    );
    assert_eq!(result.map(|_| ()), Err(ErrorCode::InvalidMarketAccount));
    assert_eq!(market.amm, original_amm);
    assert_eq!(user.orders[0].base_asset_amount_filled, 0);
    assert_eq!(user.perp_positions[0].base_asset_amount, 0);
    assert_eq!(user.perp_positions[0].open_bids, 20);
}

#[test]
fn handle_fill_perp_order_amm_rejects_wrong_position_before_mutation() {
    let mut user = User::default();
    user.open_orders = 1;
    user.orders[0] = open_order(0, PositionDirection::Long, 20);
    user.perp_positions[0] = position_with_open_order(1, PositionDirection::Long, 20);
    let mut market = test_market(0);
    let original_amm = market.amm;
    let result = handle_fill_perp_order_amm(
        &mut user,
        Pubkey::default(),
        Pubkey::default(),
        0,
        0,
        &mut market,
        &valid_oracle_price_data(),
        0,
    );
    assert_eq!(result.map(|_| ()), Err(ErrorCode::InvalidPerpPositionDetected));
    assert_eq!(market.amm, original_amm);
    assert_eq!(user.orders[0].base_asset_amount_filled, 0);
    assert_eq!(user.perp_positions[0].base_asset_amount, 0);
    assert_eq!(user.perp_positions[0].open_bids, 20);
}

#[test]
fn handle_fill_perp_order_amm_rejects_invalid_oracle_before_mutation() {
    let mut user = User::default();
    user.open_orders = 1;
    user.orders[0] = open_order(0, PositionDirection::Long, 20);
    user.perp_positions[0] = position_with_open_order(0, PositionDirection::Long, 20);
    let mut market = test_market(0);
    let original_amm = market.amm;
    let invalid_oracle_price_data = OraclePriceData {
        has_sufficient_number_of_data_points: false,
        ..valid_oracle_price_data()
    };
    let result = handle_fill_perp_order_amm(
        &mut user,
        Pubkey::default(),
        Pubkey::default(),
        0,
        0,
        &mut market,
        &invalid_oracle_price_data,
        0,
    );
    assert_eq!(result.map(|_| ()), Err(ErrorCode::OracleInvalid));
    assert_eq!(market.amm, original_amm);
    assert_eq!(user.orders[0].base_asset_amount_filled, 0);
    assert_eq!(user.perp_positions[0].base_asset_amount, 0);
    assert_eq!(user.perp_positions[0].open_bids, 20);
}

#[test]
fn handle_fill_perp_order_amm_rejects_divergent_mark_before_mutation() {
    let mut user = User::default();
    user.open_orders = 1;
    user.orders[0] = open_order(0, PositionDirection::Long, 20);
    user.perp_positions[0] = position_with_open_order(0, PositionDirection::Long, 20);
    let mut market = test_market(0);
    let original_amm = market.amm;
    let divergent_oracle_price_data = OraclePriceData {
        price: i64::try_from(PRICE_PRECISION / 2).unwrap(),
        ..valid_oracle_price_data()
    };
    let result = handle_fill_perp_order_amm(
        &mut user,
        Pubkey::default(),
        Pubkey::default(),
        0,
        0,
        &mut market,
        &divergent_oracle_price_data,
        0,
    );
    assert_eq!(result.map(|_| ()), Err(ErrorCode::OracleMarkTooDivergent));
    assert_eq!(market.amm, original_amm);
    assert_eq!(user.orders[0].base_asset_amount_filled, 0);
    assert_eq!(user.perp_positions[0].base_asset_amount, 0);
    assert_eq!(user.perp_positions[0].open_bids, 20);
}

#[test]
fn handle_fill_perp_order_amm_rejects_long_fill_above_limit_price_before_mutation() {
    let mut user = User::default();
    user.open_orders = 1;
    user.orders[0] = open_order(0, PositionDirection::Long, 20);
    user.orders[0].price = 1;
    user.perp_positions[0] = position_with_open_order(0, PositionDirection::Long, 20);
    let mut market = test_market(0);
    let original_amm = market.amm;
    let result = handle_fill_perp_order_amm(
        &mut user,
        Pubkey::default(),
        Pubkey::default(),
        0,
        0,
        &mut market,
        &valid_oracle_price_data(),
        0,
    );
    assert_eq!(result.map(|_| ()), Err(ErrorCode::InvalidFillPrice));
    assert_eq!(market.amm, original_amm);
    assert_eq!(user.orders[0].base_asset_amount_filled, 0);
    assert_eq!(user.perp_positions[0].base_asset_amount, 0);
    assert_eq!(user.perp_positions[0].open_bids, 20);
}

#[test]
fn handle_fill_perp_order_amm_rejects_short_fill_below_limit_price_before_mutation() {
    let mut user = User::default();
    user.open_orders = 1;
    user.orders[0] = open_order(0, PositionDirection::Short, 25);
    user.orders[0].price = 1_000_000_000;
    user.perp_positions[0] = position_with_open_order(0, PositionDirection::Short, 25);
    let mut market = test_market(0);
    let original_amm = market.amm;
    let result = handle_fill_perp_order_amm(
        &mut user,
        Pubkey::default(),
        Pubkey::default(),
        0,
        0,
        &mut market,
        &valid_oracle_price_data(),
        0,
    );
    assert_eq!(result.map(|_| ()), Err(ErrorCode::InvalidFillPrice));
    assert_eq!(market.amm, original_amm);
    assert_eq!(user.orders[0].base_asset_amount_filled, 0);
    assert_eq!(user.perp_positions[0].base_asset_amount, 0);
    assert_eq!(user.perp_positions[0].open_asks, -25);
}
