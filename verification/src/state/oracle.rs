use vstd::prelude::*;

verus! {

/// Where a market's oracle price comes from.
#[derive(Default, Debug, PartialEq, Eq, Clone, Copy)]
pub enum OracleSource {
    #[default]
    Pyth,
    Switchboard,
}

/// One oracle reading as the protocol sees it.
#[derive(Default, Debug, PartialEq, Eq, Clone, Copy)]
pub struct OraclePriceData {
    pub price: i64,
    pub confidence: u64,
    pub delay: i64,
    pub has_sufficient_number_of_data_points: bool,
    pub sequence_id: u64,
}

/// Time-weighted oracle history of a market.
#[derive(Default, Debug, PartialEq, Eq, Clone, Copy)]
pub struct HistoricalOracleData {
    pub last_oracle_price_twap: i64,
    pub last_oracle_price_twap_5min: i64,
    pub last_oracle_price_twap_ts: i64,
}

} // verus!
