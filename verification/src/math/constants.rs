use vstd::prelude::*;

verus! {

/// Fixed-point scale of prices (six decimals).
pub const PRICE_PRECISION: u128 = 1_000_000;

/// Fixed-point scale of the AMM peg multiplier (six decimals).
pub const PEG_PRECISION: u128 = 1_000_000;

/// Number of decimals of base asset amounts.
pub const BASE_DECIMALS: u32 = 9;

} // verus!
