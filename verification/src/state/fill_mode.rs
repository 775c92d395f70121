use vstd::prelude::*;

use crate::error::{ErrorCode, MiniDriftResult};
use crate::math::auction::{calculate_auction_price, spec_auction_price};
use crate::state::user::Order;

verus! {

/// How an order is being filled.
#[derive(PartialEq, Eq, Structural, Clone, Copy, Debug)]
pub enum FillMode {
    Fill,
    PlaceAndMake,
    /// Immediate-or-cancel flag, and how far into the auction (in percent)
    /// the taker is willing to price.
    PlaceAndTake(bool, u8),
    Liquidation,
}

/// The limit price a fill in `mode` may use for `order`. Placing and
/// taking an order with an auction prices it at the auction price that
/// many percent (at most 100) of the auction's slots after the order's
/// slot; every other case uses the order's own limit price.
pub open spec fn spec_fill_mode_limit_price(mode: FillMode, order: Order) -> MiniDriftResult<
    Option<u64>,
> {
    match mode {
        FillMode::PlaceAndTake(_, percentage) => if !order.spec_has_auction() {
            Ok(order.spec_limit_price())
        } else {
            let capped: int = if percentage < 100 {
                percentage as int
            } else {
                100
            };
            let calc_slot: int = order.auction_duration * capped / 100;
            if order.slot + calc_slot > u64::MAX {
                Err(ErrorCode::MathError)
            } else {
                match spec_auction_price(order, (order.slot + calc_slot) as u64) {
                    Ok(p) => Ok(Some(p)),
                    Err(e) => Err(e),
                }
            }
        },
        _ => Ok(order.spec_limit_price()),
    }
}

impl FillMode {
    pub fn is_liquidation(&self) -> (r: bool)
        ensures
            r == (*self is Liquidation),
    {
        matches!(self, FillMode::Liquidation)
    }

    pub fn is_ioc(&self) -> (r: bool)
        ensures
            r == (*self matches FillMode::PlaceAndTake(ioc, _) && ioc),
    {
        matches!(self, FillMode::PlaceAndTake(true, _))
    }

    pub fn get_limit_price(&self, order: &Order) -> (r: MiniDriftResult<Option<u64>>)
        ensures
            r == spec_fill_mode_limit_price(*self, *order),
    {
        match self {
            FillMode::Fill => order.get_limit_price(),
            FillMode::Liquidation => order.get_limit_price(),
            FillMode::PlaceAndMake => order.get_limit_price(),
            FillMode::PlaceAndTake(_, percentage) => {
                if !order.has_auction() {
                    order.get_limit_price()
                } else {
                    let capped_percentage: u8 = if *percentage < 100 {
                        *percentage
                    } else {
                        100
                    };
                    let duration = order.auction_duration as u64;
                    let percentage = capped_percentage as u64;
                    proof {
                        assert(duration * percentage <= 25500) by (nonlinear_arith)
                            requires
                                duration <= 255,
                                percentage <= 100,
                        ;
                    }
                    let calc_slot = duration.checked_mul(percentage).ok_or(
                        ErrorCode::MathError,
                    )?.checked_div(100).ok_or(ErrorCode::MathError)?;
                    let pretended_slots = order.slot.checked_add(calc_slot).ok_or(
                        ErrorCode::MathError,
                    )?;
                    let auction_price = calculate_auction_price(order, pretended_slots)?;
                    Ok(Some(auction_price))
                }
            },
        }
    }
}

/// Only placing-and-taking an order with an auction prices it off the
/// auction: at the auction price that percentage (at most a hundred) of the
/// auction's slots after the order's slot. Every other fill uses the order's
/// own price, where a zero price means no limit.
pub proof fn lemma_fill_mode_limit_price(mode: FillMode, order: Order)
    ensures
        ({
            let r = spec_fill_mode_limit_price(mode, order);
            let own: Option<u64> = if order.price == 0 { None } else { Some(order.price) };
            &&& (!(mode is PlaceAndTake) || order.auction_duration == 0) ==> r == Ok::<
                Option<u64>,
                ErrorCode,
            >(own)
            &&& mode matches FillMode::PlaceAndTake(_, pct) ==> (order.auction_duration != 0
                && order.slot + order.auction_duration * (if pct < 100 { pct as int } else { 100 })
                / 100 <= u64::MAX ==> r == match spec_auction_price(
                order,
                (order.slot + order.auction_duration * (if pct < 100 { pct as int } else { 100 })
                    / 100) as u64,
            ) {
                Ok(p) => Ok::<Option<u64>, ErrorCode>(Some(p)),
                Err(e) => Err(e),
            })
        }),
{
}

} // verus!
