use vstd::prelude::*;

use crate::error::{ErrorCode, MiniDriftResult};
use crate::math::amm::{calculate_mark_price, lemma_mark_price_is_reserve_ratio, spec_mark_price};
use crate::state::oracle::OraclePriceData;
use crate::state::perp_market::{Amm, PerpMarket};

verus! {

/// A fresh AMM with the given reserves, peg, bounds and step size, no open
/// interest and no spread.
pub open spec fn spec_initial_amm(
    initial_base_reserve: u128,
    initial_quote_reserve: u128,
    initial_sqrt_k: u128,
    initial_peg_multiplier: u128,
    terminal_quote_asset_reserve: u128,
    concentration_coef: u128,
    min_base_asset_reserve: u128,
    max_base_asset_reserve: u128,
    order_step_size: u64,
) -> Amm {
    Amm {
        base_asset_reserve: initial_base_reserve,
        quote_asset_reserve: initial_quote_reserve,
        sqrt_k: initial_sqrt_k,
        peg_multiplier: initial_peg_multiplier,
        terminal_quote_asset_reserve,
        base_asset_amount_with_amm: 0,
        base_asset_amount_long: 0,
        base_asset_amount_short: 0,
        quote_entry_amount_long: 0,
        quote_entry_amount_short: 0,
        quote_break_even_amount_long: 0,
        quote_break_even_amount_short: 0,
        concentration_coef,
        min_base_asset_reserve,
        max_base_asset_reserve,
        order_step_size,
        base_spread: 0,
        max_spread: 0,
        long_spread: 0,
        short_spread: 0,
        mark_std: 0,
        oracle_std: 0,
        long_intensity_volume: 0,
        short_intensity_volume: 0,
        volume_24h: 0,
    }
}

/// The market after initialization, and the result. The terminal quote
/// reserve is peg times sqrt k; where that overflows nothing changes.
/// Otherwise the market gets its index and a fresh AMM, and then a mock
/// oracle reading at the AMM's mark price, valid and without confidence
/// or delay; where the mark price cannot be computed, the market keeps its
/// new index and AMM and its old oracle reading.
pub open spec fn spec_initialize_perp_market(
    market: PerpMarket,
    market_index: u16,
    initial_base_reserve: u128,
    initial_quote_reserve: u128,
    initial_sqrt_k: u128,
    initial_peg_multiplier: u128,
    concentration_coef: u128,
    min_base_asset_reserve: u128,
    max_base_asset_reserve: u128,
    order_step_size: u64,
) -> (PerpMarket, MiniDriftResult<()>) {
    if initial_peg_multiplier * initial_sqrt_k > u128::MAX {
        (market, Err(ErrorCode::MathError))
    } else {
        let amm = spec_initial_amm(
            initial_base_reserve,
            initial_quote_reserve,
            initial_sqrt_k,
            initial_peg_multiplier,
            (initial_peg_multiplier * initial_sqrt_k) as u128,
            concentration_coef,
            min_base_asset_reserve,
            max_base_asset_reserve,
            order_step_size,
        );
        let with_amm = PerpMarket { market_index, amm, ..market };
        match spec_mark_price(amm) {
            Err(e) => (with_amm, Err(e)),
            Ok(price) => (
                PerpMarket {
                    mock_oracle_price_data: OraclePriceData {
                        price,
                        confidence: 0,
                        delay: 0,
                        has_sufficient_number_of_data_points: true,
                        sequence_id: 0,
                    },
                    ..with_amm
                },
                Ok(()),
            ),
        }
    }
}

pub fn initialize_perp_market(
    market: &mut PerpMarket,
    market_index: u16,
    initial_base_reserve: u128,
    initial_quote_reserve: u128,
    initial_sqrt_k: u128,
    initial_peg_multiplier: u128,
    concentration_coef: u128,
    min_base_asset_reserve: u128,
    max_base_asset_reserve: u128,
    order_step_size: u64,
) -> (r: MiniDriftResult<()>)
    ensures
        (*final(market), r) == spec_initialize_perp_market(
            *old(market),
            market_index,
            initial_base_reserve,
            initial_quote_reserve,
            initial_sqrt_k,
            initial_peg_multiplier,
            concentration_coef,
            min_base_asset_reserve,
            max_base_asset_reserve,
            order_step_size,
        ),
{
    let terminal_quote_asset_reserve = initial_peg_multiplier.checked_mul(initial_sqrt_k).ok_or(
        ErrorCode::MathError,
    )?;

    market.market_index = market_index;
    market.amm =
    Amm {
        base_asset_reserve: initial_base_reserve,
        quote_asset_reserve: initial_quote_reserve,
        sqrt_k: initial_sqrt_k,
        peg_multiplier: initial_peg_multiplier,
        terminal_quote_asset_reserve,
        base_asset_amount_with_amm: 0,
        base_asset_amount_long: 0,
        base_asset_amount_short: 0,
        quote_entry_amount_long: 0,
        quote_entry_amount_short: 0,
        quote_break_even_amount_long: 0,
        quote_break_even_amount_short: 0,
        concentration_coef,
        min_base_asset_reserve,
        max_base_asset_reserve,
        order_step_size,
        base_spread: 0,
        max_spread: 0,
        long_spread: 0,
        short_spread: 0,
        mark_std: 0,
        oracle_std: 0,
        long_intensity_volume: 0,
        short_intensity_volume: 0,
        volume_24h: 0,
    };
    let mock_oracle_price = calculate_mark_price(&market.amm)?;
    market.mock_oracle_price_data =
    OraclePriceData {
        price: mock_oracle_price,
        confidence: 0,
        delay: 0,
        has_sufficient_number_of_data_points: true,
        sequence_id: 0,
    };
    Ok(())
}

/// Initializing a market gives it its index and an AMM with the given
/// reserves, peg, bounds and step size, a terminal quote reserve of peg
/// times sqrt k, and no open interest, quote totals or spreads; its mock
/// oracle then reads the AMM's mark price, the quote reserve times the peg
/// over the base reserve, valid, fresh and fully confident.
pub proof fn lemma_initialized_market(
    market: PerpMarket,
    market_index: u16,
    initial_base_reserve: u128,
    initial_quote_reserve: u128,
    initial_sqrt_k: u128,
    initial_peg_multiplier: u128,
    concentration_coef: u128,
    min_base_asset_reserve: u128,
    max_base_asset_reserve: u128,
    order_step_size: u64,
)
    requires
        spec_initialize_perp_market(
            market,
            market_index,
            initial_base_reserve,
            initial_quote_reserve,
            initial_sqrt_k,
            initial_peg_multiplier,
            concentration_coef,
            min_base_asset_reserve,
            max_base_asset_reserve,
            order_step_size,
        ).1 is Ok,
    ensures
        ({
            let after = spec_initialize_perp_market(
                market,
                market_index,
                initial_base_reserve,
                initial_quote_reserve,
                initial_sqrt_k,
                initial_peg_multiplier,
                concentration_coef,
                min_base_asset_reserve,
                max_base_asset_reserve,
                order_step_size,
            ).0;
            let amm = after.amm;
            &&& after.market_index == market_index
            &&& amm.base_asset_reserve == initial_base_reserve
            &&& amm.quote_asset_reserve == initial_quote_reserve
            &&& amm.sqrt_k == initial_sqrt_k
            &&& amm.peg_multiplier == initial_peg_multiplier
            &&& amm.terminal_quote_asset_reserve == initial_peg_multiplier * initial_sqrt_k
            &&& amm.concentration_coef == concentration_coef
            &&& amm.min_base_asset_reserve == min_base_asset_reserve
            &&& amm.max_base_asset_reserve == max_base_asset_reserve
            &&& amm.order_step_size == order_step_size
            &&& amm.base_asset_amount_with_amm == 0 && amm.base_asset_amount_long == 0
                && amm.base_asset_amount_short == 0
            &&& amm.quote_entry_amount_long == 0 && amm.quote_entry_amount_short == 0
            &&& amm.quote_break_even_amount_long == 0 && amm.quote_break_even_amount_short == 0
            &&& amm.base_spread == 0 && amm.max_spread == 0
            &&& after.mock_oracle_price_data.price == initial_quote_reserve * initial_peg_multiplier
                / (initial_base_reserve as int)
            &&& after.mock_oracle_price_data.confidence == 0
            &&& after.mock_oracle_price_data.delay == 0
            &&& after.mock_oracle_price_data.has_sufficient_number_of_data_points
            &&& after.number_of_users == market.number_of_users
            &&& after.oracle == market.oracle
        }),
{
    let amm = spec_initial_amm(
        initial_base_reserve,
        initial_quote_reserve,
        initial_sqrt_k,
        initial_peg_multiplier,
        (initial_peg_multiplier * initial_sqrt_k) as u128,
        concentration_coef,
        min_base_asset_reserve,
        max_base_asset_reserve,
        order_step_size,
    );
    lemma_mark_price_is_reserve_ratio(amm);
}

} // verus!
