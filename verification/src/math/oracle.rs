use vstd::prelude::*;

use crate::error::{ErrorCode, MiniDriftResult};
use crate::state::oracle::OraclePriceData;
use vstd::arithmetic::div_mod::{lemma_div_denominator, lemma_div_multiples_vanish};

verus! {

pub const BPS_DENOMINATOR: i128 = 10_000;

pub const MAX_MARK_ORACLE_DIVERGENCE_BPS: i128 = 1_000;

/// The confidence interval around the oracle price; `MathError` where the
/// confidence or either bound does not fit in an `i64`.
pub open spec fn spec_strict_oracle_price(data: OraclePriceData) -> MiniDriftResult<(i64, i64)> {
    if data.confidence > i64::MAX || data.price - data.confidence < i64::MIN || data.price
        + data.confidence > i64::MAX {
        Err(ErrorCode::MathError)
    } else {
        Ok(((data.price - data.confidence) as i64, (data.price + data.confidence) as i64))
    }
}

/// Which check, if any, an oracle reading fails, in the order they are made:
/// too few data points, then staleness, then too wide a confidence.
pub open spec fn spec_oracle_validity(data: OraclePriceData, max_delay: i64, max_confidence: u64) -> MiniDriftResult<()> {
    if !data.has_sufficient_number_of_data_points {
        Err(ErrorCode::OracleInvalid)
    } else if data.delay > max_delay {
        Err(ErrorCode::OracleStale)
    } else if data.confidence > max_confidence {
        Err(ErrorCode::OracleInsufficientConfidence)
    } else {
        Ok(())
    }
}

/// The largest distance allowed between mark and oracle price: a tenth of
/// the oracle price, rounded down.
pub open spec fn max_mark_oracle_divergence(oracle_price: int) -> int {
    oracle_price * MAX_MARK_ORACLE_DIVERGENCE_BPS / (BPS_DENOMINATOR as int)
}

/// Both prices must be positive, and they may differ by at most
/// `max_mark_oracle_divergence` of the oracle price.
pub open spec fn spec_mark_oracle_divergence(mark_price: i64, oracle_price: i64) -> MiniDriftResult<()> {
    if mark_price <= 0 || oracle_price <= 0 {
        Err(ErrorCode::OracleInvalid)
    } else {
        let divergence: int = if mark_price > oracle_price {
            mark_price - oracle_price
        } else {
            oracle_price - mark_price
        };
        if divergence > max_mark_oracle_divergence(oracle_price as int) {
            Err(ErrorCode::OracleMarkTooDivergent)
        } else {
            Ok(())
        }
    }
}

pub fn get_strict_oracle_price(oracle_price_data: &OraclePriceData) -> (r: MiniDriftResult<(i64, i64)>)
    ensures
        r == spec_strict_oracle_price(*oracle_price_data),
{
    if oracle_price_data.confidence > i64::MAX as u64 {
        return Err(ErrorCode::MathError);
    }
    let confidence_i64 = oracle_price_data.confidence as i64;
    let min = oracle_price_data.price.checked_sub(confidence_i64).ok_or(ErrorCode::MathError)?;
    let max = oracle_price_data.price.checked_add(confidence_i64).ok_or(ErrorCode::MathError)?;
    Ok((min, max))
}

pub fn is_oracle_valid(oracle_price_data: &OraclePriceData, max_delay: i64, max_confidence: u64) -> (r:
    MiniDriftResult<()>)
    ensures
        r == spec_oracle_validity(*oracle_price_data, max_delay, max_confidence),
{
    if !oracle_price_data.has_sufficient_number_of_data_points {
        return Err(ErrorCode::OracleInvalid);
    } else if oracle_price_data.delay > max_delay {
        return Err(ErrorCode::OracleStale);
    } else if oracle_price_data.confidence > max_confidence {
        return Err(ErrorCode::OracleInsufficientConfidence);
    }
    Ok(())
}

pub fn validate_mark_oracle_divergence(mark_price: i64, oracle_price_data: &OraclePriceData) -> (r:
    MiniDriftResult<()>)
    ensures
        r == spec_mark_oracle_divergence(mark_price, oracle_price_data.price),
{
    if mark_price <= 0 || oracle_price_data.price <= 0 {
        return Err(ErrorCode::OracleInvalid);
    }
    let mark_price = mark_price as i128;
    let oracle_price = oracle_price_data.price as i128;
    let divergence = if mark_price > oracle_price {
        mark_price.checked_sub(oracle_price).ok_or(ErrorCode::MathError)?
    } else {
        oracle_price.checked_sub(mark_price).ok_or(ErrorCode::MathError)?
    };
    proof {
        assert(0 < oracle_price * MAX_MARK_ORACLE_DIVERGENCE_BPS <= i64::MAX * 1000)
            by (nonlinear_arith)
            requires
                0 < oracle_price <= i64::MAX,
        ;
    }
    let max_divergence = oracle_price.checked_mul(MAX_MARK_ORACLE_DIVERGENCE_BPS).ok_or(
        ErrorCode::MathError,
    )?.checked_div(BPS_DENOMINATOR).ok_or(ErrorCode::MathError)?;
    if divergence > max_divergence {
        return Err(ErrorCode::OracleMarkTooDivergent);
    }
    Ok(())
}

/// An accepted mark price lies within a tenth of the oracle price: both
/// are positive and ten times their distance is at most the oracle price.
pub proof fn lemma_accepted_mark_is_near_oracle(mark_price: i64, oracle_price: i64)
    requires
        spec_mark_oracle_divergence(mark_price, oracle_price) is Ok,
    ensures
        mark_price > 0,
        oracle_price > 0,
        10 * (mark_price - oracle_price) <= oracle_price,
        10 * (oracle_price - mark_price) <= oracle_price,
{
}

/// The strict oracle prices bracket the oracle price by its confidence.
pub proof fn lemma_strict_price_brackets_oracle(data: OraclePriceData)
    requires
        spec_strict_oracle_price(data) is Ok,
    ensures
        ({
            let (min, max) = spec_strict_oracle_price(data)->Ok_0;
            &&& min <= data.price <= max
            &&& data.price - min == data.confidence
            &&& max - data.price == data.confidence
        }),
{
}

/// An oracle reading is accepted exactly when it has enough data points,
/// is no older than the allowed delay and is no less confident than
/// allowed; a refused reading names the first check it fails, in that
/// order.
pub proof fn lemma_oracle_validity_checks(data: OraclePriceData, max_delay: i64, max_confidence: u64)
    ensures
        (spec_oracle_validity(data, max_delay, max_confidence) is Ok) == (
        data.has_sufficient_number_of_data_points && data.delay <= max_delay && data.confidence
            <= max_confidence),
        !data.has_sufficient_number_of_data_points ==> spec_oracle_validity(
            data,
            max_delay,
            max_confidence,
        ) == Err::<(), ErrorCode>(ErrorCode::OracleInvalid),
        data.has_sufficient_number_of_data_points && data.delay > max_delay
            ==> spec_oracle_validity(data, max_delay, max_confidence) == Err::<(), ErrorCode>(
            ErrorCode::OracleStale,
        ),
        data.has_sufficient_number_of_data_points && data.delay <= max_delay && data.confidence
            > max_confidence ==> spec_oracle_validity(data, max_delay, max_confidence) == Err::<
            (),
            ErrorCode,
        >(ErrorCode::OracleInsufficientConfidence),
{
}

/// A mark price is accepted exactly when both prices are positive and ten
/// times their distance is at most the oracle price; a non-positive price
/// is an invalid oracle, a larger distance too divergent.
pub proof fn lemma_mark_divergence_bound(mark_price: i64, oracle_price: i64)
    ensures
        ({
            let distance: int = if mark_price > oracle_price {
                mark_price - oracle_price
            } else {
                oracle_price - mark_price
            };
            let r = spec_mark_oracle_divergence(mark_price, oracle_price);
            &&& (mark_price <= 0 || oracle_price <= 0) ==> r == Err::<(), ErrorCode>(
                ErrorCode::OracleInvalid,
            )
            &&& (mark_price > 0 && oracle_price > 0 && 10 * distance <= oracle_price) ==> r is Ok
            &&& (mark_price > 0 && oracle_price > 0 && 10 * distance > oracle_price) ==> r
                == Err::<(), ErrorCode>(ErrorCode::OracleMarkTooDivergent)
        }),
{
    let o = oracle_price as int;
    if o > 0 {
        assert(o * 1000 / 10000 == o / 10) by {
            lemma_div_denominator(o * 1000, 1000, 10);
            assert(o * 1000 == 1000 * o) by (nonlinear_arith);
            lemma_div_multiples_vanish(o, 1000);
            assert(1000int * 10 == 10000);
        }
    }
}

} // verus!
