use vstd::prelude::*;

use crate::error::{ErrorCode, MiniDriftResult};
use crate::math::safe_math::fit_u64;
use vstd::arithmetic::div_mod::{lemma_div_is_ordered, lemma_div_multiples_vanish};
use crate::state::user::{Order, PositionDirection};

verus! {

/// The bits of `x` read as a `u64`, which is what `x as u64` gives.
pub open spec fn wrap_u64(x: i64) -> int {
    if x >= 0 {
        x as int
    } else {
        x + 0x1_0000_0000_0000_0000
    }
}

/// How far the auction price moves over the whole auction: start minus end
/// for a short, end minus start for a long; `MathError` where that is
/// negative or does not fit in an `i64`.
pub open spec fn spec_auction_price_gap(order: Order) -> MiniDriftResult<u64> {
    let gap: int = if order.direction == PositionDirection::Short {
        order.auction_start_price - order.auction_end_price
    } else {
        order.auction_end_price - order.auction_start_price
    };
    if gap < 0 || gap > i64::MAX {
        Err(ErrorCode::MathError)
    } else {
        Ok(gap as u64)
    }
}

/// The auction price at `current_slot`: the start price moved, in the
/// order's direction, by the share of the price gap that the elapsed slots
/// (capped at the auction's duration) make of the duration, rounded down.
/// A slot before the order's, a gap that is negative or too large, and a
/// zero duration give `MathError`.
pub open spec fn spec_auction_price(order: Order, current_slot: u64) -> MiniDriftResult<u64> {
    if current_slot < order.slot {
        Err(ErrorCode::MathError)
    } else {
        let elapsed: int = current_slot - order.slot;
        let clamped: int = if elapsed < order.auction_duration {
            elapsed
        } else {
            order.auction_duration as int
        };
        match spec_auction_price_gap(order) {
            Err(e) => Err(e),
            Ok(gap) => if gap * clamped > u64::MAX || order.auction_duration == 0 {
                Err(ErrorCode::MathError)
            } else {
                let moved = gap * clamped / (order.auction_duration as int);
                if order.direction == PositionDirection::Long {
                    fit_u64(wrap_u64(order.auction_start_price) + moved)
                } else {
                    fit_u64(wrap_u64(order.auction_start_price) - moved)
                }
            },
        }
    }
}

pub fn calculate_auction_price(order: &Order, current_slot: u64) -> (r: MiniDriftResult<u64>)
    ensures
        r == spec_auction_price(*order, current_slot),
{
    let slots_elapsed = current_slot.checked_sub(order.slot).ok_or(ErrorCode::MathError)?;
    let duration = order.auction_duration as u64;
    let clamped_slot = if slots_elapsed < duration {
        slots_elapsed
    } else {
        duration
    };
    let signed_gap = if order.direction == PositionDirection::Short {
        order.auction_start_price.checked_sub(order.auction_end_price).ok_or(
            ErrorCode::MathError,
        )?
    } else {
        order.auction_end_price.checked_sub(order.auction_start_price).ok_or(
            ErrorCode::MathError,
        )?
    };
    if signed_gap < 0 {
        return Err(ErrorCode::MathError);
    }
    let price_gap = signed_gap as u64;
    let elapsed_price_gap = price_gap.checked_mul(clamped_slot).ok_or(
        ErrorCode::MathError,
    )?.checked_div(duration).ok_or(ErrorCode::MathError)?;
    let start = order.auction_start_price;
    let start_bits = start as u64;
    proof {
        assert(start < 0 ==> start_bits as int == start as int + 0x1_0000_0000_0000_0000)
            by (bit_vector)
            requires
                start_bits == start as u64,
        ;
    }
    if order.direction == PositionDirection::Long {
        start_bits.checked_add(elapsed_price_gap).ok_or(ErrorCode::MathError)
    } else {
        start_bits.checked_sub(elapsed_price_gap).ok_or(ErrorCode::MathError)
    }
}

/// How far the price has moved after `clamped` of `duration` slots is at
/// most the whole gap, grows with the slots, and is the whole gap at the end.
proof fn lemma_moved_share(gap: int, clamped: int, later: int, duration: int)
    requires
        gap >= 0,
        0 <= clamped <= later <= duration,
        duration > 0,
    ensures
        0 <= gap * clamped / duration <= gap * later / duration <= gap,
        gap * duration / duration == gap,
{
    assert(0 <= gap * clamped <= gap * later <= gap * duration) by (nonlinear_arith)
        requires
            gap >= 0,
            0 <= clamped <= later <= duration,
    ;
    lemma_div_is_ordered(gap * clamped, gap * later, duration);
    lemma_div_is_ordered(gap * later, gap * duration, duration);
    lemma_div_is_ordered(0, gap * clamped, duration);
    lemma_div_multiples_vanish(gap, duration);
    lemma_div_multiples_vanish(0, duration);
    assert(gap * duration == duration * gap) by (nonlinear_arith);
    assert(duration * 0 == 0);
}

/// For an auction that starts at a price that is not negative, every price
/// it gives lies between its start and end prices, and once the auction's
/// duration has passed the price is the end price.
pub proof fn lemma_auction_price_between_start_and_end(order: Order, current_slot: u64)
    requires
        order.auction_start_price >= 0,
        spec_auction_price(order, current_slot) is Ok,
    ensures
        ({
            let price = spec_auction_price(order, current_slot)->Ok_0;
            &&& order.direction == PositionDirection::Long ==> order.auction_start_price <= price
                <= order.auction_end_price
            &&& order.direction == PositionDirection::Short ==> order.auction_end_price <= price
                <= order.auction_start_price
            &&& current_slot - order.slot >= order.auction_duration ==> price
                == order.auction_end_price
        }),
{
    let elapsed: int = current_slot - order.slot;
    let d = order.auction_duration as int;
    let clamped: int = if elapsed < d { elapsed } else { d };
    let gap = spec_auction_price_gap(order)->Ok_0 as int;
    lemma_moved_share(gap, clamped, d, d);
}

/// The auction price moves one way only: toward the end price as the slot
/// advances (up for a long, down for a short).
pub proof fn lemma_auction_price_moves_toward_end(order: Order, slot: u64, later_slot: u64)
    requires
        slot <= later_slot,
        spec_auction_price(order, slot) is Ok,
        spec_auction_price(order, later_slot) is Ok,
    ensures
        order.direction == PositionDirection::Long ==> spec_auction_price(order, slot)->Ok_0
            <= spec_auction_price(order, later_slot)->Ok_0,
        order.direction == PositionDirection::Short ==> spec_auction_price(order, slot)->Ok_0
            >= spec_auction_price(order, later_slot)->Ok_0,
{
    let d = order.auction_duration as int;
    let e1: int = slot - order.slot;
    let e2: int = later_slot - order.slot;
    let c1: int = if e1 < d { e1 } else { d };
    let c2: int = if e2 < d { e2 } else { d };
    let gap = spec_auction_price_gap(order)->Ok_0 as int;
    lemma_moved_share(gap, c1, c2, d);
}

/// The auction price moves linearly: after `elapsed` slots of a `duration`
/// slot auction (elapsed counted up to the duration), it has moved from the
/// start price (read as a `u64`) toward the end price by exactly the price
/// gap times elapsed over duration, rounded down: up for a long, down for a
/// short.
pub proof fn lemma_auction_price_is_linear(order: Order, current_slot: u64)
    requires
        spec_auction_price(order, current_slot) is Ok,
    ensures
        ({
            let price = spec_auction_price(order, current_slot)->Ok_0;
            let duration = order.auction_duration as int;
            let elapsed = current_slot - order.slot;
            let clamped = if elapsed < duration { elapsed } else { duration };
            &&& current_slot >= order.slot
            &&& duration > 0
            &&& order.direction == PositionDirection::Long ==> price == wrap_u64(
                order.auction_start_price,
            ) + (order.auction_end_price - order.auction_start_price) * clamped / duration
            &&& order.direction == PositionDirection::Short ==> price == wrap_u64(
                order.auction_start_price,
            ) - (order.auction_start_price - order.auction_end_price) * clamped / duration
        }),
{
}

} // verus!
