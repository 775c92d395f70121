use vstd::prelude::*;

verus! {

/// Every way in which a protocol operation can be refused.
#[derive(Debug, Clone, Copy, PartialEq, Eq, Structural)]
pub enum ErrorCode {
    MathError,
    NoOrderSlotAvailable,
    NoPerpPositionSlotAvailable,
    ReduceOnlyOrderWouldIncreasePosition,
    UnsupportedOrderType,
    UnexpectedError,
    InvalidPerpPositionDetected,
    InvalidAmmDetected,
    InvalidOrderStatus,
    InvalidMarketAccount,
    InvalidFillPrice,
    OracleStale,
    OracleInsufficientConfidence,
    OracleInvalid,
    OracleMarkTooDivergent,
}

pub type MiniDriftResult<T = ()> = Result<T, ErrorCode>;

} // verus!
