use vstd::prelude::*;

use crate::error::{ErrorCode, MiniDriftResult};

verus! {

/// `v` as a `u32`, or `MathError` where it does not fit.
pub open spec fn fit_u32(v: int) -> MiniDriftResult<u32> {
    if 0 <= v <= u32::MAX { Ok(v as u32) } else { Err(ErrorCode::MathError) }
}

/// `v` as a `u64`, or `MathError` where it does not fit.
pub open spec fn fit_u64(v: int) -> MiniDriftResult<u64> {
    if 0 <= v <= u64::MAX { Ok(v as u64) } else { Err(ErrorCode::MathError) }
}

/// `v` as a `u128`, or `MathError` where it does not fit.
pub open spec fn fit_u128(v: int) -> MiniDriftResult<u128> {
    if 0 <= v <= u128::MAX { Ok(v as u128) } else { Err(ErrorCode::MathError) }
}

/// `v` as an `i64`, or `MathError` where it does not fit.
pub open spec fn fit_i64(v: int) -> MiniDriftResult<i64> {
    if i64::MIN <= v <= i64::MAX { Ok(v as i64) } else { Err(ErrorCode::MathError) }
}

/// `v` as an `i128`, or `MathError` where it does not fit.
pub open spec fn fit_i128(v: int) -> MiniDriftResult<i128> {
    if i128::MIN <= v <= i128::MAX { Ok(v as i128) } else { Err(ErrorCode::MathError) }
}

/// Arithmetic that reports overflow, underflow and division by zero as
/// `MathError` instead of wrapping or panicking.
pub trait SafeMath: Sized {
    fn safe_add(self, rhs: Self) -> MiniDriftResult<Self>;

    fn safe_sub(self, rhs: Self) -> MiniDriftResult<Self>;

    fn safe_mul(self, rhs: Self) -> MiniDriftResult<Self>;

    fn safe_div(self, rhs: Self) -> MiniDriftResult<Self>;
}

impl SafeMath for u64 {
    fn safe_add(self, rhs: u64) -> (r: MiniDriftResult<u64>)
        ensures
            r == fit_u64(self + rhs),
    {
        self.checked_add(rhs).ok_or(ErrorCode::MathError)
    }

    fn safe_sub(self, rhs: u64) -> (r: MiniDriftResult<u64>)
        ensures
            r == fit_u64(self - rhs),
    {
        self.checked_sub(rhs).ok_or(ErrorCode::MathError)
    }

    fn safe_mul(self, rhs: u64) -> (r: MiniDriftResult<u64>)
        ensures
            r == fit_u64(self * rhs),
    {
        self.checked_mul(rhs).ok_or(ErrorCode::MathError)
    }

    fn safe_div(self, rhs: u64) -> (r: MiniDriftResult<u64>)
        ensures
            r == (if rhs == 0 { Err(ErrorCode::MathError) } else { Ok(self / rhs) }),
    {
        self.checked_div(rhs).ok_or(ErrorCode::MathError)
    }
}

impl SafeMath for u128 {
    fn safe_add(self, rhs: u128) -> (r: MiniDriftResult<u128>)
        ensures
            r == fit_u128(self + rhs),
    {
        self.checked_add(rhs).ok_or(ErrorCode::MathError)
    }

    fn safe_sub(self, rhs: u128) -> (r: MiniDriftResult<u128>)
        ensures
            r == fit_u128(self - rhs),
    {
        self.checked_sub(rhs).ok_or(ErrorCode::MathError)
    }

    fn safe_mul(self, rhs: u128) -> (r: MiniDriftResult<u128>)
        ensures
            r == fit_u128(self * rhs),
    {
        self.checked_mul(rhs).ok_or(ErrorCode::MathError)
    }

    fn safe_div(self, rhs: u128) -> (r: MiniDriftResult<u128>)
        ensures
            r == (if rhs == 0 { Err(ErrorCode::MathError) } else { Ok(self / rhs) }),
    {
        self.checked_div(rhs).ok_or(ErrorCode::MathError)
    }
}

} // verus!
