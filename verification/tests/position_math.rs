use mini_drift::controller::position::PositionDelta;
use mini_drift::error::ErrorCode;
use mini_drift::math::position::{
    calculate_position_delta, calculate_quote_portion, get_new_position_amounts,
    get_position_update_type, PositionUpdateType,
};
use mini_drift::state::user::PerpPosition;

fn position(base_asset_amount: i64) -> PerpPosition {
    let mut position = PerpPosition::default();
    position.base_asset_amount = base_asset_amount;
    position
}

fn position_with_quote(base_asset_amount: i64, quote_asset_amount: i64) -> PerpPosition {
    let mut position = PerpPosition::default();
    position.base_asset_amount = base_asset_amount;
    position.quote_asset_amount = quote_asset_amount;
    position
}

fn position_with_entry(
    base_asset_amount: i64,
    quote_entry_amount: i64,
    quote_break_even_amount: i64,
) -> PerpPosition {
    let mut position = PerpPosition::default();
    position.base_asset_amount = base_asset_amount;
    position.quote_entry_amount = quote_entry_amount;
    position.quote_break_even_amount = quote_break_even_amount;
    position
}

fn delta(base_asset_amount: i64) -> PositionDelta {
    PositionDelta { base_asset_amount, ..PositionDelta::default() }
}

fn delta_with_quote(base_asset_amount: i64, quote_asset_amount: i64) -> PositionDelta {
    PositionDelta { base_asset_amount, quote_asset_amount }
}

#[test]
fn gets_position_update_type() {
    let cases = [
        (0, 5, PositionUpdateType::Open),
        (5, 2, PositionUpdateType::Increase),
        (5, -2, PositionUpdateType::Reduce),
        (5, -5, PositionUpdateType::Close),
        (5, -8, PositionUpdateType::Flip),
    ];

    for (old_base_asset_amount, delta_base_asset_amount, expected) in cases {
        assert_eq!(
            get_position_update_type(&position(old_base_asset_amount), &delta(delta_base_asset_amount)),
            expected,
            "old {old_base_asset_amount}, delta {delta_base_asset_amount}"
        );
    }
}

#[test]
fn gets_new_position_amounts() {
    assert_eq!(
        get_new_position_amounts(&position_with_quote(5, -900), &delta_with_quote(-2, 400)),
        Ok((3, -500))
    );
}

#[test]
fn get_new_position_amounts_errors_on_base_overflow() {
    assert_eq!(
        get_new_position_amounts(&position(i64::MAX), &delta(1)),
        Err(ErrorCode::MathError)
    );
}

#[test]
fn calculates_quote_portion_with_i128_intermediate() {
    assert_eq!(calculate_quote_portion(i64::MAX, 2, 2), Ok(i64::MAX));
}

#[test]
fn calculates_position_delta_for_increase() {
    assert_eq!(
        calculate_position_delta(
            &position_with_entry(5, -900, -920),
            &delta_with_quote(2, -400),
            &PositionUpdateType::Increase,
        ),
        Ok((-1300, -1320, 0))
    );
}

#[test]
fn calculates_position_delta_for_long_reduce_profit() {
    assert_eq!(
        calculate_position_delta(
            &position_with_entry(10, -1000, -1000),
            &delta_with_quote(-4, 440),
            &PositionUpdateType::Reduce,
        ),
        Ok((-600, -600, 40))
    );
}

#[test]
fn calculates_position_delta_for_short_reduce_profit() {
    assert_eq!(
        calculate_position_delta(
            &position_with_entry(-10, 1000, 1000),
            &delta_with_quote(4, -360),
            &PositionUpdateType::Reduce,
        ),
        Ok((600, 600, 40))
    );
}

#[test]
fn calculates_position_delta_for_close() {
    assert_eq!(
        calculate_position_delta(
            &position_with_entry(10, -1000, -1050),
            &delta_with_quote(-10, 1100),
            &PositionUpdateType::Close,
        ),
        Ok((0, 0, 100))
    );
}

#[test]
fn calculates_position_delta_for_flip() {
    assert_eq!(
        calculate_position_delta(
            &position_with_entry(5, -500, -500),
            &delta_with_quote(-8, 880),
            &PositionUpdateType::Flip,
        ),
        Ok((330, 330, 50))
    );
}
