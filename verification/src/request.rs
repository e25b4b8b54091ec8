//! The request that bridges the initiating call and the pool's callback.

use vstd::prelude::*;
use soroban_sdk::{Address, Env};
use soroban_sdk::Vec as HostVec;
use crate::error::SoroswapError;
use crate::host::{self, batch_slots, in_contract, stored_request, Invocation};
use crate::pool::{FlashLoan, Request, RequestType};
use crate::validation::{batch_len_ok, request_verdict, validate_request};

verus! {

/// The parameters of a flash loan in flight.
#[derive(Debug)]
pub struct FlashLoanRequest {
    /// The invocations to run once the loan has arrived, in order.
    pub invocations: HostVec<Invocation>,
    /// The token that is borrowed.
    pub loan_asset: Address,
    /// How much of it is borrowed.
    pub loan_amount: i128,
    /// The least net profit the caller accepts.
    pub min_profit: i128,
    /// Who started the request.
    pub caller: Address,
}

impl FlashLoanRequest {
    /// The number of invocations the request carries.
    pub open spec fn batch_len(self) -> nat {
        batch_slots(self.invocations).len()
    }

    /// A request as it may be armed: one to ten invocations, no negative
    /// amount.
    pub open spec fn well_formed(self) -> bool {
        &&& batch_len_ok(self.batch_len())
        &&& self.loan_amount >= 0
        &&& self.min_profit >= 0
    }

    /// What [`FlashLoanRequest::validate`] answers.
    pub open spec fn verdict(self) -> Result<(), SoroswapError> {
        request_verdict(self.batch_len(), self.loan_amount, self.min_profit)
    }

    /// The loan that the request asks of the pool, to be received by the
    /// contract at `receiver`.
    pub open spec fn spec_loan(self, receiver: Address) -> FlashLoan {
        FlashLoan { contract: receiver, asset: self.loan_asset, amount: self.loan_amount }
    }

    /// The loan that the request asks of the pool, to be received by the
    /// contract at `receiver`: the request's asset and amount, no more and no
    /// less.
    pub fn loan(&self, receiver: &Address) -> (loan: FlashLoan)
        ensures
            loan == self.spec_loan(*receiver),
    {
        FlashLoan {
            contract: receiver.clone(),
            asset: self.loan_asset.clone(),
            amount: self.loan_amount,
        }
    }

    /// What the pool is to process alongside the loan: one request, which
    /// declares the whole loan as repaid.
    pub open spec fn spec_repayment(self) -> Seq<Request> {
        seq![
            Request {
                request_type: RequestType::Repay.spec_code(),
                address: self.loan_asset,
                amount: self.loan_amount,
            },
        ]
    }

    /// What the pool is to process alongside the loan: one request, which
    /// declares the whole loan as repaid.
    pub fn repayment(&self) -> (requests: Vec<Request>)
        ensures
            requests@ == self.spec_repayment(),
    {
        let mut requests: Vec<Request> = Vec::new();
        requests.push(Request::repay(self.loan_asset.clone(), self.loan_amount));
        assert(requests@ =~= self.spec_repayment());
        requests
    }

    /// Judges the request: accepted exactly when it is well formed.
    pub fn validate(&self) -> (verdict: Result<(), SoroswapError>)
        ensures
            verdict == self.verdict(),
            verdict is Ok <==> self.well_formed(),
    {
        validate_request(host::batch_len(&self.invocations), self.loan_amount, self.min_profit)
    }
}

/// The single slot of temporary storage that holds the request in flight.
/// The host bounds the entry's lifetime; nothing here deletes it.
pub struct FlashLoanRequestStore;

impl FlashLoanRequestStore {
    /// Stores the request, over whatever the slot held. The slot is that of
    /// the running contract, so there has to be one.
    pub fn put(e: &mut Env, request: &FlashLoanRequest)
        requires
            in_contract(*old(e)),
        ensures
            stored_request(*final(e)) == Some(*request),
            in_contract(*final(e)),
    {
        host::store_request(e, request);
    }

    /// The request in the slot, if there is one. The slot is left as it is.
    /// It is that of the running contract, so there has to be one.
    pub fn get(e: &Env) -> (found: Option<FlashLoanRequest>)
        requires
            in_contract(*e),
        ensures
            found == stored_request(*e),
    {
        host::load_request(e)
    }
}

} // verus!
