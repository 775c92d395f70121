use vstd::prelude::*;

use crate::error::{ErrorCode, MiniDriftResult};
use crate::math::constants::PRICE_PRECISION;
use crate::math::position::abs;
use crate::math::safe_math::{fit_u32, fit_u64};
use crate::state::user::PositionDirection;
use vstd::arithmetic::div_mod::{lemma_div_is_ordered, lemma_div_pos_is_pos};

verus! {

pub open spec fn max_int(a: int, b: int) -> int {
    if a >= b {
        a
    } else {
        b
    }
}

pub open spec fn min_int(a: int, b: int) -> int {
    if a <= b {
        a
    } else {
        b
    }
}

/// `x` held between `lo` and `hi` (for `lo <= hi`).
pub open spec fn clamp_int(x: int, lo: int, hi: int) -> int {
    if x < lo {
        lo
    } else if x > hi {
        hi
    } else {
        x
    }
}

/// The extra spread charged for the AMM's inventory: the base spread
/// scaled by the AMM's net base over the total open interest, rounded
/// down; zero when there is no open interest. `MathError` where the open
/// interest or the product overflows `u128` or the result `u32`.
pub open spec fn spec_inventory_scale(
    base_spread: u32,
    base_asset_amount_with_amm: i128,
    base_asset_amount_long: i128,
    base_asset_amount_short: i128,
) -> MiniDriftResult<u32> {
    let imbalance = abs(base_asset_amount_with_amm as int);
    let total_oi = abs(base_asset_amount_long as int) + abs(base_asset_amount_short as int);
    if total_oi > u128::MAX {
        Err(ErrorCode::MathError)
    } else if total_oi == 0 {
        Ok(0)
    } else if base_spread * imbalance > u128::MAX {
        Err(ErrorCode::MathError)
    } else {
        fit_u32(base_spread * imbalance / total_oi)
    }
}

/// The part of the oracle confidence that floors both volatility spreads:
/// all of it above a quarter percent, a twentieth of it otherwise.
pub open spec fn confidence_component(oracle_conf_pct: u64) -> int {
    if oracle_conf_pct > PRICE_PRECISION / 400 {
        oracle_conf_pct as int
    } else {
        (oracle_conf_pct / 20) as int
    }
}

/// A side's share of the 24h volume, in price precision, held between one
/// percent and all of it.
pub open spec fn intensity_factor(intensity_volume: u64, volume_24h: u64) -> int {
    let volume: int = if volume_24h >= 1 {
        volume_24h as int
    } else {
        1
    };
    clamp_int(
        intensity_volume * PRICE_PRECISION / volume,
        (PRICE_PRECISION / 100) as int,
        PRICE_PRECISION as int,
    )
}

/// The volatility spread of the market: a quarter of the average of mark
/// and oracle standard deviation as a share of the reserve price, or the
/// oracle confidence if larger.
pub open spec fn volatility_spread(
    mark_std: u64,
    oracle_std: u64,
    reserve_price: u64,
    oracle_conf_pct: u64,
) -> int {
    let avg_std_pct: int = (oracle_std + mark_std) * PRICE_PRECISION / (reserve_price as int) / 2;
    max_int(avg_std_pct / 4, oracle_conf_pct as int)
}

/// Long and short volatility spreads: the volatility spread weighted by
/// each side's intensity factor, and never below the confidence component.
/// A zero reserve price, or a spread beyond `u32`, gives `MathError`.
pub open spec fn spec_long_short_vol_spread(
    mark_std: u64,
    oracle_std: u64,
    long_intensity_volume: u64,
    short_intensity_volume: u64,
    volume_24h: u64,
    reserve_price: u64,
    oracle_conf_pct: u64,
) -> MiniDriftResult<(u32, u32)> {
    if reserve_price == 0 {
        Err(ErrorCode::MathError)
    } else {
        let vol = volatility_spread(mark_std, oracle_std, reserve_price, oracle_conf_pct);
        let conf = confidence_component(oracle_conf_pct);
        let long_vol = vol * intensity_factor(long_intensity_volume, volume_24h) / (
        PRICE_PRECISION as int);
        let short_vol = vol * intensity_factor(short_intensity_volume, volume_24h) / (
        PRICE_PRECISION as int);
        match fit_u32(max_int(long_vol, conf)) {
            Err(e) => Err(e),
            Ok(l) => match fit_u32(max_int(short_vol, conf)) {
                Err(e) => Err(e),
                Ok(s) => Ok((l, s)),
            },
        }
    }
}

/// Long and short spreads: each side's volatility spread or half the base
/// spread, whichever is larger, plus the inventory scale, capped at the
/// maximum spread.
pub open spec fn spec_spread(
    base_spread: u32,
    max_spread: u32,
    base_asset_amount_with_amm: i128,
    reserve_price: u64,
    oracle_conf_pct: u64,
    mark_std: u64,
    oracle_std: u64,
    long_intensity_volume: u64,
    short_intensity_volume: u64,
    volume_24h: u64,
    base_asset_amount_long: i128,
    base_asset_amount_short: i128,
) -> MiniDriftResult<(u32, u32)> {
    match spec_long_short_vol_spread(
        mark_std,
        oracle_std,
        long_intensity_volume,
        short_intensity_volume,
        volume_24h,
        reserve_price,
        oracle_conf_pct,
    ) {
        Err(e) => Err(e),
        Ok((long_vol, short_vol)) => match spec_inventory_scale(
            base_spread,
            base_asset_amount_with_amm,
            base_asset_amount_long,
            base_asset_amount_short,
        ) {
            Err(e) => Err(e),
            Ok(inventory) => {
                let half_base: int = (base_spread / 2) as int;
                Ok(
                    (
                        min_int(max_int(half_base, long_vol as int) + inventory, max_spread as int)
                            as u32,
                        min_int(max_int(half_base, short_vol as int) + inventory, max_spread as int)
                            as u32,
                    ),
                )
            },
        },
    }
}

/// The quote amount with the side's spread applied: a long pays
/// `quote * long_spread / PRICE_PRECISION` more, a short receives
/// `quote * short_spread / PRICE_PRECISION` less (rounded down).
/// `MathError` where the long amount passes `u64::MAX` or the short amount
/// goes below zero.
pub open spec fn spec_apply_spread_to_quote(
    quote_asset_amount: u64,
    long_spread: u32,
    short_spread: u32,
    direction: PositionDirection,
) -> MiniDriftResult<u64> {
    match direction {
        PositionDirection::Long => fit_u64(
            quote_asset_amount + quote_asset_amount * long_spread / (PRICE_PRECISION as int),
        ),
        PositionDirection::Short => fit_u64(
            quote_asset_amount - quote_asset_amount * short_spread / (PRICE_PRECISION as int),
        ),
    }
}

fn unsigned_abs_i128(x: i128) -> (r: u128)
    ensures
        r == abs(x as int),
{
    if x < 0 {
        (-(x + 1)) as u128 + 1
    } else {
        x as u128
    }
}

pub fn calculate_spread(
    base_spread: u32,
    max_spread: u32,
    base_asset_amount_with_amm: i128,
    reserve_price: u64,
    oracle_conf_pct: u64,
    mark_std: u64,
    oracle_std: u64,
    long_intensity_volume: u64,
    short_intensity_volume: u64,
    volume_24h: u64,
    base_asset_amount_long: i128,
    base_asset_amount_short: i128,
) -> (r: MiniDriftResult<(u32, u32)>)
    ensures
        r == spec_spread(
            base_spread,
            max_spread,
            base_asset_amount_with_amm,
            reserve_price,
            oracle_conf_pct,
            mark_std,
            oracle_std,
            long_intensity_volume,
            short_intensity_volume,
            volume_24h,
            base_asset_amount_long,
            base_asset_amount_short,
        ),
{
    let (long_vol, short_vol) = calculate_long_short_vol_spread(
        mark_std,
        oracle_std,
        long_intensity_volume,
        short_intensity_volume,
        volume_24h,
        reserve_price,
        oracle_conf_pct,
    )?;
    let half_base = base_spread.checked_div(2).ok_or(ErrorCode::MathError)? as u64;
    let mut long_spread: u64 = if half_base >= long_vol as u64 {
        half_base
    } else {
        long_vol as u64
    };
    let mut short_spread: u64 = if half_base >= short_vol as u64 {
        half_base
    } else {
        short_vol as u64
    };

    let inventory_scale = calculate_inventory_scale(
        base_spread,
        base_asset_amount_with_amm,
        base_asset_amount_long,
        base_asset_amount_short,
    )?;
    long_spread = long_spread.saturating_add(inventory_scale as u64);
    short_spread = short_spread.saturating_add(inventory_scale as u64);

    if long_spread > max_spread as u64 {
        long_spread = max_spread as u64;
    }
    if short_spread > max_spread as u64 {
        short_spread = max_spread as u64;
    }
    Ok((long_spread as u32, short_spread as u32))
}

pub fn apply_spread_to_quote(
    quote_asset_amount: u64,
    long_spread: u32,
    short_spread: u32,
    direction: PositionDirection,
) -> (r: MiniDriftResult<u64>)
    ensures
        r == spec_apply_spread_to_quote(quote_asset_amount, long_spread, short_spread, direction),
{
    let quote_asset_amount_u128 = quote_asset_amount as u128;
    proof {
        assert(quote_asset_amount * long_spread <= u64::MAX * u32::MAX) by (nonlinear_arith);
        assert(quote_asset_amount * short_spread <= u64::MAX * u32::MAX) by (nonlinear_arith);
        assert(quote_asset_amount * long_spread / (PRICE_PRECISION as int) <= quote_asset_amount
            * long_spread) by (nonlinear_arith)
            requires
                quote_asset_amount * long_spread >= 0,
        ;
    }
    match direction {
        PositionDirection::Long => {
            let res_raw = quote_asset_amount_u128.checked_mul(long_spread as u128).ok_or(
                ErrorCode::MathError,
            )?;
            let res = res_raw.checked_div(PRICE_PRECISION).ok_or(ErrorCode::MathError)?;
            let quote = quote_asset_amount_u128.checked_add(res).ok_or(ErrorCode::MathError)?;
            if quote > u64::MAX as u128 {
                Err(ErrorCode::MathError)
            } else {
                Ok(quote as u64)
            }
        },
        PositionDirection::Short => {
            let res_raw = quote_asset_amount_u128.checked_mul(short_spread as u128).ok_or(
                ErrorCode::MathError,
            )?;
            let res = res_raw.checked_div(PRICE_PRECISION).ok_or(ErrorCode::MathError)?;
            let quote = quote_asset_amount_u128.checked_sub(res).ok_or(ErrorCode::MathError)?;
            if quote > u64::MAX as u128 {
                Err(ErrorCode::MathError)
            } else {
                Ok(quote as u64)
            }
        },
    }
}

pub fn calculate_inventory_scale(
    base_spread: u32,
    base_asset_amount_with_amm: i128,
    base_asset_amount_long: i128,
    base_asset_amount_short: i128,
) -> (r: MiniDriftResult<u32>)
    ensures
        r == spec_inventory_scale(
            base_spread,
            base_asset_amount_with_amm,
            base_asset_amount_long,
            base_asset_amount_short,
        ),
{
    let imbalance = unsigned_abs_i128(base_asset_amount_with_amm);
    let total_oi = unsigned_abs_i128(base_asset_amount_long).checked_add(
        unsigned_abs_i128(base_asset_amount_short),
    ).ok_or(ErrorCode::MathError)?;
    if total_oi == 0 {
        return Ok(0);
    }
    let num = (base_spread as u128).checked_mul(imbalance).ok_or(ErrorCode::MathError)?;
    let adjustment = num.checked_div(total_oi).ok_or(ErrorCode::MathError)?;
    if adjustment > u32::MAX as u128 {
        Err(ErrorCode::MathError)
    } else {
        Ok(adjustment as u32)
    }
}

pub fn calculate_long_short_vol_spread(
    mark_std: u64,
    oracle_std: u64,
    long_intensity_volume: u64,
    short_intensity_volume: u64,
    volume_24h: u64,
    reserve_price: u64,
    oracle_conf_pct: u64,
) -> (r: MiniDriftResult<(u32, u32)>)
    ensures
        r == spec_long_short_vol_spread(
            mark_std,
            oracle_std,
            long_intensity_volume,
            short_intensity_volume,
            volume_24h,
            reserve_price,
            oracle_conf_pct,
        ),
{
    if reserve_price == 0 {
        return Err(ErrorCode::MathError);
    }
    let std_sum = (oracle_std as u128).checked_add(mark_std as u128).ok_or(
        ErrorCode::MathError,
    )?;
    proof {
        assert(std_sum * PRICE_PRECISION <= 0x2_0000_0000_0000_0000 * 1_000_000)
            by (nonlinear_arith)
            requires
                std_sum <= 0x2_0000_0000_0000_0000,
        ;
    }
    let scaled_std = std_sum.checked_mul(PRICE_PRECISION).ok_or(ErrorCode::MathError)?;
    let market_avg_std_pct = scaled_std.checked_div(reserve_price as u128).ok_or(
        ErrorCode::MathError,
    )?.checked_div(2).ok_or(ErrorCode::MathError)?;
    proof {
        assert(scaled_std as int / (reserve_price as int) <= scaled_std) by (nonlinear_arith)
            requires
                reserve_price >= 1,
                scaled_std >= 0,
        ;
    }
    let std_component = market_avg_std_pct.checked_div(4).ok_or(ErrorCode::MathError)?;
    let vol_spread: u128 = if std_component >= oracle_conf_pct as u128 {
        std_component
    } else {
        oracle_conf_pct as u128
    };
    let volume: u64 = if volume_24h >= 1 {
        volume_24h
    } else {
        1
    };
    proof {
        assert(long_intensity_volume * PRICE_PRECISION <= u64::MAX * 1_000_000)
            by (nonlinear_arith);
        assert(short_intensity_volume * PRICE_PRECISION <= u64::MAX * 1_000_000)
            by (nonlinear_arith);
    }
    let long_raw = (long_intensity_volume as u128).checked_mul(PRICE_PRECISION).ok_or(
        ErrorCode::MathError,
    )?.checked_div(volume as u128).ok_or(ErrorCode::MathError)?;
    let long_factor: u128 = if long_raw < PRICE_PRECISION / 100 {
        PRICE_PRECISION / 100
    } else if long_raw > PRICE_PRECISION {
        PRICE_PRECISION
    } else {
        long_raw
    };
    let short_raw = (short_intensity_volume as u128).checked_mul(PRICE_PRECISION).ok_or(
        ErrorCode::MathError,
    )?.checked_div(volume as u128).ok_or(ErrorCode::MathError)?;
    let short_factor: u128 = if short_raw < PRICE_PRECISION / 100 {
        PRICE_PRECISION / 100
    } else if short_raw > PRICE_PRECISION {
        PRICE_PRECISION
    } else {
        short_raw
    };
    proof {
        assert(vol_spread * long_factor <= 0x2_0000_0000_0000_0000 * 1_000_000 * 1_000_000)
            by (nonlinear_arith)
            requires
                vol_spread <= 0x2_0000_0000_0000_0000 * 1_000_000,
                long_factor <= 1_000_000,
        ;
        assert(vol_spread * short_factor <= 0x2_0000_0000_0000_0000 * 1_000_000 * 1_000_000)
            by (nonlinear_arith)
            requires
                vol_spread <= 0x2_0000_0000_0000_0000 * 1_000_000,
                short_factor <= 1_000_000,
        ;
    }
    let long_vol_spread = vol_spread.checked_mul(long_factor).ok_or(
        ErrorCode::MathError,
    )?.checked_div(PRICE_PRECISION).ok_or(ErrorCode::MathError)?;
    let short_vol_spread = vol_spread.checked_mul(short_factor).ok_or(
        ErrorCode::MathError,
    )?.checked_div(PRICE_PRECISION).ok_or(ErrorCode::MathError)?;
    let conf_component: u128 = if (oracle_conf_pct as u128) > PRICE_PRECISION / 400 {
        oracle_conf_pct as u128
    } else {
        (oracle_conf_pct as u128).checked_div(20).ok_or(ErrorCode::MathError)?
    };
    let long_max = if long_vol_spread >= conf_component {
        long_vol_spread
    } else {
        conf_component
    };
    let short_max = if short_vol_spread >= conf_component {
        short_vol_spread
    } else {
        conf_component
    };
    if long_max > u32::MAX as u128 {
        return Err(ErrorCode::MathError);
    }
    if short_max > u32::MAX as u128 {
        return Err(ErrorCode::MathError);
    }
    Ok((long_max as u32, short_max as u32))
}

/// The spreads of a market never exceed its maximum spread, and never fall
/// below half its base spread or the side's volatility spread, as far as
/// the maximum allows.
pub proof fn lemma_spread_is_bounded(
    base_spread: u32,
    max_spread: u32,
    base_asset_amount_with_amm: i128,
    reserve_price: u64,
    oracle_conf_pct: u64,
    mark_std: u64,
    oracle_std: u64,
    long_intensity_volume: u64,
    short_intensity_volume: u64,
    volume_24h: u64,
    base_asset_amount_long: i128,
    base_asset_amount_short: i128,
)
    requires
        spec_spread(
            base_spread,
            max_spread,
            base_asset_amount_with_amm,
            reserve_price,
            oracle_conf_pct,
            mark_std,
            oracle_std,
            long_intensity_volume,
            short_intensity_volume,
            volume_24h,
            base_asset_amount_long,
            base_asset_amount_short,
        ) is Ok,
    ensures
        ({
            let (long_spread, short_spread) = spec_spread(
                base_spread,
                max_spread,
                base_asset_amount_with_amm,
                reserve_price,
                oracle_conf_pct,
                mark_std,
                oracle_std,
                long_intensity_volume,
                short_intensity_volume,
                volume_24h,
                base_asset_amount_long,
                base_asset_amount_short,
            )->Ok_0;
            let (long_vol, short_vol) = spec_long_short_vol_spread(
                mark_std,
                oracle_std,
                long_intensity_volume,
                short_intensity_volume,
                volume_24h,
                reserve_price,
                oracle_conf_pct,
            )->Ok_0;
            &&& long_spread <= max_spread
            &&& short_spread <= max_spread
            &&& long_spread >= min_int((base_spread / 2) as int, max_spread as int)
            &&& short_spread >= min_int((base_spread / 2) as int, max_spread as int)
            &&& long_spread >= min_int(long_vol as int, max_spread as int)
            &&& short_spread >= min_int(short_vol as int, max_spread as int)
        }),
{
}

/// The spread never favours the taker: a long pays at least the AMM quote,
/// a short receives at most it.
pub proof fn lemma_spread_never_favours_taker(
    quote_asset_amount: u64,
    long_spread: u32,
    short_spread: u32,
    direction: PositionDirection,
)
    requires
        spec_apply_spread_to_quote(quote_asset_amount, long_spread, short_spread, direction) is Ok,
    ensures
        ({
            let quote = spec_apply_spread_to_quote(
                quote_asset_amount,
                long_spread,
                short_spread,
                direction,
            )->Ok_0;
            &&& direction == PositionDirection::Long ==> quote >= quote_asset_amount
            &&& direction == PositionDirection::Short ==> quote <= quote_asset_amount
        }),
{
    assert(quote_asset_amount * long_spread >= 0) by (nonlinear_arith);
    assert(quote_asset_amount * short_spread >= 0) by (nonlinear_arith);
}

/// How the spreads are made, stated on the inputs: each side takes half the
/// base spread or its volatility spread, whichever is larger, adds the
/// inventory charge, the base spread times the AMM's net base over the
/// total open interest (rounded down, nothing without open interest), and
/// is capped at the maximum spread. So, below the cap, a larger imbalance
/// never gives a smaller spread.
pub proof fn lemma_spread_formula(
    base_spread: u32,
    max_spread: u32,
    base_asset_amount_with_amm: i128,
    reserve_price: u64,
    oracle_conf_pct: u64,
    mark_std: u64,
    oracle_std: u64,
    long_intensity_volume: u64,
    short_intensity_volume: u64,
    volume_24h: u64,
    base_asset_amount_long: i128,
    base_asset_amount_short: i128,
)
    requires
        spec_spread(
            base_spread,
            max_spread,
            base_asset_amount_with_amm,
            reserve_price,
            oracle_conf_pct,
            mark_std,
            oracle_std,
            long_intensity_volume,
            short_intensity_volume,
            volume_24h,
            base_asset_amount_long,
            base_asset_amount_short,
        ) is Ok,
    ensures
        ({
            let (long_spread, short_spread) = spec_spread(
                base_spread,
                max_spread,
                base_asset_amount_with_amm,
                reserve_price,
                oracle_conf_pct,
                mark_std,
                oracle_std,
                long_intensity_volume,
                short_intensity_volume,
                volume_24h,
                base_asset_amount_long,
                base_asset_amount_short,
            )->Ok_0;
            let (long_vol, short_vol) = spec_long_short_vol_spread(
                mark_std,
                oracle_std,
                long_intensity_volume,
                short_intensity_volume,
                volume_24h,
                reserve_price,
                oracle_conf_pct,
            )->Ok_0;
            let open_interest = abs(base_asset_amount_long as int) + abs(
                base_asset_amount_short as int,
            );
            let inventory = if open_interest == 0 {
                0
            } else {
                base_spread * abs(base_asset_amount_with_amm as int) / open_interest
            };
            let half = base_spread / 2;
            &&& long_spread == min_int(max_int(half as int, long_vol as int) + inventory, max_spread as int)
            &&& short_spread == min_int(max_int(half as int, short_vol as int) + inventory, max_spread as int)
        }),
{
}

/// A spread is applied on top of the quote for a long and taken off it for
/// a short: the quote times the side's spread over price precision,
/// rounded down. The result is refused only where it leaves `u64`.
pub proof fn lemma_apply_spread_amount(
    quote_asset_amount: u64,
    long_spread: u32,
    short_spread: u32,
    direction: PositionDirection,
)
    ensures
        ({
            let r = spec_apply_spread_to_quote(quote_asset_amount, long_spread, short_spread, direction);
            let long_quote = quote_asset_amount + quote_asset_amount * long_spread / 1_000_000;
            let short_quote = quote_asset_amount - quote_asset_amount * short_spread / 1_000_000;
            &&& direction == PositionDirection::Long ==> (if long_quote <= u64::MAX {
                r == Ok::<u64, ErrorCode>(long_quote as u64)
            } else {
                r == Err::<u64, ErrorCode>(ErrorCode::MathError)
            })
            &&& direction == PositionDirection::Short ==> (if short_quote >= 0 {
                r == Ok::<u64, ErrorCode>(short_quote as u64)
            } else {
                r == Err::<u64, ErrorCode>(ErrorCode::MathError)
            })
        }),
{
    assert(quote_asset_amount * short_spread >= 0) by (nonlinear_arith);
    assert(quote_asset_amount * long_spread >= 0) by (nonlinear_arith);
}

/// The inventory charge is the base spread scaled by the AMM's net base
/// over the total open interest, rounded down, and nothing without open
/// interest.
pub proof fn lemma_inventory_scale_formula(
    base_spread: u32,
    base_asset_amount_with_amm: i128,
    base_asset_amount_long: i128,
    base_asset_amount_short: i128,
)
    requires
        spec_inventory_scale(
            base_spread,
            base_asset_amount_with_amm,
            base_asset_amount_long,
            base_asset_amount_short,
        ) is Ok,
    ensures
        ({
            let scale = spec_inventory_scale(
                base_spread,
                base_asset_amount_with_amm,
                base_asset_amount_long,
                base_asset_amount_short,
            )->Ok_0;
            let open_interest = abs(base_asset_amount_long as int) + abs(
                base_asset_amount_short as int,
            );
            &&& open_interest == 0 ==> scale == 0
            &&& open_interest != 0 ==> scale == base_spread * abs(base_asset_amount_with_amm as int)
                / open_interest
        }),
{
}

/// The volatility spreads never fall below the oracle confidence floor (all
/// of the confidence above a quarter percent, a twentieth of it otherwise),
/// the side with more intensity volume never gets the smaller spread, and
/// sides with equal intensity get equal spreads.
pub proof fn lemma_vol_spread_follows_intensity(
    mark_std: u64,
    oracle_std: u64,
    long_intensity_volume: u64,
    short_intensity_volume: u64,
    volume_24h: u64,
    reserve_price: u64,
    oracle_conf_pct: u64,
)
    requires
        spec_long_short_vol_spread(
            mark_std,
            oracle_std,
            long_intensity_volume,
            short_intensity_volume,
            volume_24h,
            reserve_price,
            oracle_conf_pct,
        ) is Ok,
    ensures
        ({
            let (long_vol, short_vol) = spec_long_short_vol_spread(
                mark_std,
                oracle_std,
                long_intensity_volume,
                short_intensity_volume,
                volume_24h,
                reserve_price,
                oracle_conf_pct,
            )->Ok_0;
            let floor: int = if oracle_conf_pct > 2_500 {
                oracle_conf_pct as int
            } else {
                (oracle_conf_pct / 20) as int
            };
            &&& reserve_price > 0
            &&& long_vol >= floor
            &&& short_vol >= floor
            &&& long_intensity_volume >= short_intensity_volume ==> long_vol >= short_vol
            &&& long_intensity_volume <= short_intensity_volume ==> long_vol <= short_vol
        }),
{
    let vol = volatility_spread(mark_std, oracle_std, reserve_price, oracle_conf_pct);
    let avg: int = (oracle_std + mark_std) * PRICE_PRECISION / (reserve_price as int) / 2;
    assert((oracle_std + mark_std) * PRICE_PRECISION >= 0) by (nonlinear_arith);
    lemma_div_pos_is_pos((oracle_std + mark_std) * PRICE_PRECISION, reserve_price as int);
    assert(vol >= 0);
    let volume: int = if volume_24h >= 1 { volume_24h as int } else { 1 };
    lemma_intensity_monotone(long_intensity_volume, short_intensity_volume, volume);
    lemma_intensity_monotone(short_intensity_volume, long_intensity_volume, volume);
    let lf = intensity_factor(long_intensity_volume, volume_24h);
    let sf = intensity_factor(short_intensity_volume, volume_24h);
    if lf >= sf {
        assert(vol * lf >= vol * sf) by (nonlinear_arith)
            requires
                vol >= 0,
                lf >= sf,
        ;
        lemma_div_is_ordered(vol * sf, vol * lf, PRICE_PRECISION as int);
    }
    if lf <= sf {
        assert(vol * lf <= vol * sf) by (nonlinear_arith)
            requires
                vol >= 0,
                lf <= sf,
        ;
        lemma_div_is_ordered(vol * lf, vol * sf, PRICE_PRECISION as int);
    }
}

/// A larger intensity volume never gives a smaller share of the volume.
proof fn lemma_intensity_monotone(a: u64, b: u64, volume: int)
    requires
        volume >= 1,
    ensures
        a >= b ==> a * PRICE_PRECISION / volume >= b * PRICE_PRECISION / volume,
{
    if a >= b {
        assert(a * PRICE_PRECISION >= b * PRICE_PRECISION) by (nonlinear_arith)
            requires
                a >= b,
        ;
        lemma_div_is_ordered(b * PRICE_PRECISION, a * PRICE_PRECISION, volume);
    }
}

} // verus!
