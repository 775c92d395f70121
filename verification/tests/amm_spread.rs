use mini_drift::math::amm_spread::{
    apply_spread_to_quote, calculate_long_short_vol_spread, calculate_spread,
};
use mini_drift::state::user::PositionDirection;

#[test]
fn calculate_spread_uses_half_base_spread_when_no_adjustments() {
    let result = calculate_spread(400, 500, 0, 1_000_000, 0, 0, 0, 0, 0, 0, 0, 0);
    assert_eq!(result, Ok((200, 200)));
}

#[test]
fn apply_spread_long_adds_to_quote() {
    let result = apply_spread_to_quote(1000, 50_000, 0, PositionDirection::Long);
    assert_eq!(result, Ok(1050));
}

#[test]
fn apply_spread_short_subtracts_from_quote() {
    let result = apply_spread_to_quote(1000, 0, 50_000, PositionDirection::Short);
    assert_eq!(result, Ok(950));
}

#[test]
fn apply_spread_zero_changes_nothing() {
    let result = apply_spread_to_quote(1000, 0, 0, PositionDirection::Long);
    assert_eq!(result, Ok(1000));
}

#[test]
fn calculate_long_short_vol_spread_weights_by_side_intensity() {
    let result = calculate_long_short_vol_spread(0, 0, 500, 100, 1000, 1_000_000, 100);
    assert_eq!(result, Ok((50, 10)));
}

#[test]
fn calculate_long_short_vol_spread_applies_confidence_floor() {
    let result = calculate_long_short_vol_spread(0, 0, 1, 1, 1_000, 1_000_000, 100);
    assert_eq!(result, Ok((5, 5)));
}
