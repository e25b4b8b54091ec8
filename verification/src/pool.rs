//! The lending pool as the coordinator sees it: what a flash loan and its
//! accompanying requests look like, and the call that asks for one.

use vstd::prelude::*;
use soroban_sdk::{Address, Env, Val};
use soroban_sdk::Vec as HostVec;
use crate::error::SoroswapError;
use crate::host::{self, encoded_request, in_contract, is_contract, value_items};

verus! {

/// A flash loan as the pool expects it.
#[derive(Clone, Debug)]
pub struct FlashLoan {
    /// The contract that receives the loan and the pool's callback.
    pub contract: Address,
    /// The token to borrow.
    pub asset: Address,
    /// How much of it to borrow.
    pub amount: i128,
}

/// One further operation that the pool carries out with the loan.
#[derive(Clone, Debug)]
pub struct Request {
    /// The kind of operation, as [`RequestType::code`] numbers it.
    pub request_type: u32,
    /// The asset, or the user to liquidate, that the operation is about.
    pub address: Address,
    /// The amount of the operation.
    pub amount: i128,
}

/// The kinds of operation that a pool request can name.
#[derive(Clone, Copy, Debug, PartialEq, Eq, Structural)]
pub enum RequestType {
    Supply,
    Withdraw,
    SupplyCollateral,
    WithdrawCollateral,
    Borrow,
    Repay,
    FillUserLiquidationAuction,
    FillBadDebtAuction,
    FillInterestAuction,
    DeleteLiquidationAuction,
}

impl RequestType {
    /// The number the pool knows the kind by.
    pub open spec fn spec_code(self) -> u32 {
        match self {
            RequestType::Supply => 0,
            RequestType::Withdraw => 1,
            RequestType::SupplyCollateral => 2,
            RequestType::WithdrawCollateral => 3,
            RequestType::Borrow => 4,
            RequestType::Repay => 5,
            RequestType::FillUserLiquidationAuction => 6,
            RequestType::FillBadDebtAuction => 7,
            RequestType::FillInterestAuction => 8,
            RequestType::DeleteLiquidationAuction => 9,
        }
    }

    /// The number the pool knows the kind by.
    pub fn code(self) -> (code: u32)
        ensures
            code == self.spec_code(),
    {
        match self {
            RequestType::Supply => 0,
            RequestType::Withdraw => 1,
            RequestType::SupplyCollateral => 2,
            RequestType::WithdrawCollateral => 3,
            RequestType::Borrow => 4,
            RequestType::Repay => 5,
            RequestType::FillUserLiquidationAuction => 6,
            RequestType::FillBadDebtAuction => 7,
            RequestType::FillInterestAuction => 8,
            RequestType::DeleteLiquidationAuction => 9,
        }
    }
}

impl Request {
    /// The request that declares `amount` of `asset` as repaid, so that the
    /// pool's health check sees no open debt.
    pub fn repay(asset: Address, amount: i128) -> (request: Request)
        ensures
            request == (Request {
                request_type: RequestType::Repay.spec_code(),
                address: asset,
                amount,
            }),
    {
        Request { request_type: RequestType::Repay.code(), address: asset, amount }
    }
}

/// The client side of the pool's flash-loan entry point.
pub struct SoroswapRouter;

impl SoroswapRouter {
    /// Asks the pool at `pool_address` for `flash_loan` on behalf of `from`,
    /// with `requests` to process alongside. The pool hands the loan to the
    /// receiving contract, calls that contract back, and collects what is owed;
    /// whether all of that went through is the pool's to say, and a refusal
    /// comes back as [`SoroswapError::SubInvocationFailed`]. So does a pool
    /// address that is no contract: nothing is called then.
    pub fn flash_loan(
        e: &mut Env,
        pool_address: &Address,
        from: &Address,
        flash_loan: &FlashLoan,
        requests: &Vec<Request>,
    ) -> (outcome: Result<(), SoroswapError>)
        ensures
            outcome is Err ==> outcome == Err::<(), SoroswapError>(
                SoroswapError::SubInvocationFailed,
            ),
            !is_contract(*pool_address) ==> outcome is Err && *final(e) == *old(e),
            in_contract(*final(e)) == in_contract(*old(e)),
    {
        if !host::names_contract(pool_address) {
            return Err(SoroswapError::SubInvocationFailed);
        }
        let encoded = encode_requests(e, requests);
        let loan = host::encode_flash_loan(e, flash_loan);
        let granted = host::pool_flash_loan(e, pool_address, from, loan, encoded);
        loan_verdict(granted)
    }
}

/// The requests as the pool is handed them: each in its wire form, in the
/// order given.
pub open spec fn wire_requests(requests: Seq<Request>) -> Seq<Val> {
    Seq::new(requests.len(), |i: int| encoded_request(requests[i]))
}

/// Puts the requests into the vector that the pool is handed: one value for
/// each request, its wire form, in the order given.
pub fn encode_requests(e: &Env, requests: &Vec<Request>) -> (encoded: HostVec<Val>)
    ensures
        value_items(encoded) == wire_requests(requests@),
{
    let mut encoded = host::values_new(e);
    let mut i: usize = 0;
    while i < requests.len()
        invariant
            i <= requests.len(),
            value_items(encoded) == wire_requests(requests@.take(i as int)),
        decreases requests.len() - i,
    {
        let next = host::encode_request(e, &requests[i]);
        host::values_push(&mut encoded, next);
        assert(wire_requests(requests@.take(i as int)).push(encoded_request(requests@[i as int]))
            =~= wire_requests(requests@.take(i + 1)));
        i += 1;
    }
    assert(requests@.take(requests.len() as int) =~= requests@);
    encoded
}

/// What [`loan_verdict`] answers.
pub open spec fn grant_verdict(granted: bool) -> Result<(), SoroswapError> {
    if granted {
        Ok(())
    } else {
        Err(SoroswapError::SubInvocationFailed)
    }
}

/// Turns the pool's answer into the result of the flash loan: a loan that
/// the pool granted and saw through is a success, anything else a failed
/// call.
pub fn loan_verdict(granted: bool) -> (verdict: Result<(), SoroswapError>)
    ensures
        verdict == grant_verdict(granted),
{
    if granted {
        Ok(())
    } else {
        Err(SoroswapError::SubInvocationFailed)
    }
}

} // verus!
