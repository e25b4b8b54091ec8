//! The typed rejections of the coordinators.

use vstd::prelude::*;

verus! {

/// Why a coordinator call was rejected. Each rejection is meant to fail the
/// whole enclosing transaction.
#[derive(Clone, Copy, Debug, PartialEq, Eq, PartialOrd, Ord, Structural)]
pub enum SoroswapError {
    /// Net profit fell short of the caller's threshold.
    InsufficientProfit,
    /// The batch of invocations is empty or longer than the limit.
    EmptyOrOversizedBatch,
    /// A call into another contract failed.
    SubInvocationFailed,
    /// The balance after the batch does not cover principal plus fee.
    InsufficientRepaymentBalance,
    /// The caller has not authorized the call.
    MissingAuthorization,
    /// No usable request is armed, or a value handed in or reported back
    /// cannot be worked with.
    InvalidParams,
    /// An amount is negative.
    NegativeAmount,
    /// The callback does not belong to the armed request.
    StaleOrMismatchedCallback,
}

impl SoroswapError {
    /// The number under which the rejection is reported on the ledger.
    pub open spec fn spec_code(self) -> u32 {
        match self {
            SoroswapError::InsufficientProfit => 1,
            SoroswapError::EmptyOrOversizedBatch => 2,
            SoroswapError::SubInvocationFailed => 3,
            SoroswapError::InsufficientRepaymentBalance => 4,
            SoroswapError::MissingAuthorization => 5,
            SoroswapError::InvalidParams => 6,
            SoroswapError::NegativeAmount => 7,
            SoroswapError::StaleOrMismatchedCallback => 8,
        }
    }

    /// The number under which the rejection is reported on the ledger.
    pub fn code(self) -> (code: u32)
        ensures
            code == self.spec_code(),
            1 <= code <= 8,
    {
        match self {
            SoroswapError::InsufficientProfit => 1,
            SoroswapError::EmptyOrOversizedBatch => 2,
            SoroswapError::SubInvocationFailed => 3,
            SoroswapError::InsufficientRepaymentBalance => 4,
            SoroswapError::MissingAuthorization => 5,
            SoroswapError::InvalidParams => 6,
            SoroswapError::NegativeAmount => 7,
            SoroswapError::StaleOrMismatchedCallback => 8,
        }
    }
}

/// Distinct rejections are reported under distinct numbers.
pub proof fn lemma_codes_distinct(a: SoroswapError, b: SoroswapError)
    ensures
        a.spec_code() == b.spec_code() <==> a == b,
{
}

} // verus!
