//! Checks made on a request before anything is stored or called.

use vstd::prelude::*;
use crate::error::SoroswapError;

verus! {

/// The largest number of invocations one request may carry.
pub const MAX_INVOCATIONS: u32 = 10;

/// What [`check_nonnegative_amount`] answers.
pub open spec fn nonnegative_verdict(amount: i128) -> Result<(), SoroswapError> {
    if amount < 0 {
        Err(SoroswapError::NegativeAmount)
    } else {
        Ok(())
    }
}

/// Rejects a negative amount.
pub fn check_nonnegative_amount(amount: i128) -> (verdict: Result<(), SoroswapError>)
    ensures
        verdict == nonnegative_verdict(amount),
{
    if amount < 0 {
        Err(SoroswapError::NegativeAmount)
    } else {
        Ok(())
    }
}

/// Whether a batch of `batch_len` invocations is within the limits.
pub open spec fn batch_len_ok(batch_len: nat) -> bool {
    1 <= batch_len <= MAX_INVOCATIONS
}

/// What [`validate_request`] answers: the batch size is judged first, the
/// amounts second.
pub open spec fn request_verdict(batch_len: nat, loan_amount: i128, min_profit: i128) -> Result<
    (),
    SoroswapError,
> {
    if !batch_len_ok(batch_len) {
        Err(SoroswapError::EmptyOrOversizedBatch)
    } else if loan_amount < 0 || min_profit < 0 {
        Err(SoroswapError::NegativeAmount)
    } else {
        Ok(())
    }
}

/// Judges the parameters of a flash-loan request.
pub fn validate_request(batch_len: u32, loan_amount: i128, min_profit: i128) -> (verdict: Result<
    (),
    SoroswapError,
>)
    ensures
        verdict == request_verdict(batch_len as nat, loan_amount, min_profit),
{
    if batch_len == 0 || batch_len > MAX_INVOCATIONS {
        return Err(SoroswapError::EmptyOrOversizedBatch);
    }
    match check_nonnegative_amount(loan_amount) {
        Err(rejection) => Err(rejection),
        Ok(()) => check_nonnegative_amount(min_profit),
    }
}

/// A request with a negative amount is never accepted.
pub proof fn lemma_negative_amount_rejected(batch_len: nat, loan_amount: i128, min_profit: i128)
    requires
        loan_amount < 0 || min_profit < 0,
    ensures
        request_verdict(batch_len, loan_amount, min_profit) is Err,
{
}

/// An empty batch, or one over the limit, is rejected as such whatever the
/// amounts are.
pub proof fn lemma_batch_size_rejected(batch_len: nat, loan_amount: i128, min_profit: i128)
    requires
        batch_len == 0 || batch_len > MAX_INVOCATIONS,
    ensures
        request_verdict(batch_len, loan_amount, min_profit) == Err::<(), SoroswapError>(
            SoroswapError::EmptyOrOversizedBatch,
        ),
{
}

} // verus!
