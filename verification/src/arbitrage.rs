//! The flash-loan coordinator: the call that starts an arbitrage, the
//! callback that the pool makes while the loan is out, and the stand-alone
//! batch entry point.

use vstd::prelude::*;
use soroban_sdk::{Address, Env, Val};
use soroban_sdk::Vec as HostVec;
use crate::error::SoroswapError;
use crate::calls::{balance_of, transfer};
use crate::executor::{
    all_tolerant, fail_fast_ending, fail_soft_ending, listed, run_fail_fast, run_fail_soft,
    tolerant_runnable,
};
use crate::host::{
    self, batch_slots, in_contract, is_contract, stored_request, tolerant_slots, Invocation,
    TolerantInvocation,
};
use crate::pool::SoroswapRouter;
use crate::request::{FlashLoanRequest, FlashLoanRequestStore};
use crate::validation::request_verdict;

verus! {

/// The coordinator's balance of the loan asset, read just before the pool is
/// called and again just after it has returned.
#[derive(Clone, Copy, Debug, PartialEq, Eq, Structural)]
pub struct BalanceSnapshot {
    pub before: i128,
    pub after: i128,
}

impl BalanceSnapshot {
    /// What the coordinator gained over the pool call.
    pub open spec fn net_profit(self) -> int {
        self.after - self.before
    }

    /// What [`BalanceSnapshot::settle`] answers. A gain below the threshold is
    /// insufficient; a gain that no amount can express, which takes a negative
    /// reading to begin with, marks the asset as unusable.
    pub open spec fn verdict(self, min_profit: i128) -> Result<i128, SoroswapError> {
        if self.net_profit() < min_profit {
            Err(SoroswapError::InsufficientProfit)
        } else if self.net_profit() > i128::MAX {
            Err(SoroswapError::InvalidParams)
        } else {
            Ok(self.net_profit() as i128)
        }
    }

    /// Holds the net profit against the caller's threshold.
    pub fn settle(&self, min_profit: i128) -> (verdict: Result<i128, SoroswapError>)
        ensures
            verdict == self.verdict(min_profit),
    {
        match self.after.checked_sub(self.before) {
            Some(net) => {
                if net < min_profit {
                    Err(SoroswapError::InsufficientProfit)
                } else {
                    Ok(net)
                }
            },
            None => {
                if self.after < self.before {
                    Err(SoroswapError::InsufficientProfit)
                } else {
                    Err(SoroswapError::InvalidParams)
                }
            },
        }
    }
}

/// Whether the callback's parameters are those of the request.
pub open spec fn callback_matches(
    request: FlashLoanRequest,
    caller: Address,
    asset: Address,
    amount: i128,
) -> bool {
    &&& request.loan_asset == asset
    &&& request.loan_amount == amount
    &&& request.caller == caller
}

/// What [`admit_callback`] answers.
pub open spec fn callback_admission(
    stored: Option<FlashLoanRequest>,
    caller: Address,
    asset: Address,
    amount: i128,
) -> Result<(), SoroswapError> {
    match stored {
        None => Err(SoroswapError::InvalidParams),
        Some(request) => if callback_matches(request, caller, asset, amount) {
            Ok(())
        } else {
            Err(SoroswapError::StaleOrMismatchedCallback)
        },
    }
}

/// Decides whether a callback belongs to what the store holds: there must be
/// a request, and asset, amount and caller must be the request's own.
pub fn admit_callback(
    stored: &Option<FlashLoanRequest>,
    caller: &Address,
    asset: &Address,
    amount: i128,
) -> (verdict: Result<(), SoroswapError>)
    ensures
        verdict == callback_admission(*stored, *caller, *asset, amount),
{
    match stored {
        None => Err(SoroswapError::InvalidParams),
        Some(request) => {
            if host::same_address(&request.loan_asset, asset) && request.loan_amount == amount
                && host::same_address(&request.caller, caller) {
                Ok(())
            } else {
                Err(SoroswapError::StaleOrMismatchedCallback)
            }
        },
    }
}

/// What is owed to the pool at the end of the callback.
pub open spec fn repayment_due(amount: i128, fee: i128) -> int {
    amount + fee
}

/// What [`check_repayment`] answers.
pub open spec fn repayment_verdict(balance: i128, amount: i128, fee: i128) -> Result<
    (),
    SoroswapError,
> {
    if balance < repayment_due(amount, fee) {
        Err(SoroswapError::InsufficientRepaymentBalance)
    } else {
        Ok(())
    }
}

/// Holds the balance after the batch against principal plus fee.
pub fn check_repayment(balance: i128, amount: i128, fee: i128) -> (verdict: Result<
    (),
    SoroswapError,
>)
    ensures
        verdict == repayment_verdict(balance, amount, fee),
{
    let covered = match amount.checked_add(fee) {
        Some(due) => balance >= due,
        None => fee < 0,
    };
    if covered {
        Ok(())
    } else {
        Err(SoroswapError::InsufficientRepaymentBalance)
    }
}

/// The positions of the batch that the store holds; none where it holds no
/// request.
pub open spec fn stored_slots(stored: Option<FlashLoanRequest>) -> Seq<Option<Invocation>> {
    match stored {
        None => Seq::empty(),
        Some(request) => batch_slots(request.invocations),
    }
}

/// The callback as a function of what it finds: the stored request, how the
/// batch ended, and the balance read after it (`None` where the asset gave no
/// reading). The batch is only run for an admitted callback, the balance only
/// read after a batch that went through.
pub open spec fn callback_outcome(
    stored: Option<FlashLoanRequest>,
    caller: Address,
    asset: Address,
    amount: i128,
    fee: i128,
    batch: Result<(), SoroswapError>,
    balance: Option<i128>,
) -> Result<(), SoroswapError> {
    match callback_admission(stored, caller, asset, amount) {
        Err(rejection) => Err(rejection),
        Ok(()) => match batch {
            Err(rejection) => Err(rejection),
            Ok(()) => match balance {
                None => Err(SoroswapError::SubInvocationFailed),
                Some(held) => repayment_verdict(held, amount, fee),
            },
        },
    }
}

/// The initiating call, once its request has passed validation, as a function
/// of what it finds: the balance before the pool call, whether the pool
/// granted the loan and returned, the balance after, and whether the profit
/// could be paid out. A balance is `None` where the asset gave no reading,
/// which counts as a failed call, as does a pool that refuses and a payout
/// that does not go through.
pub open spec fn arbitrage_outcome(
    min_profit: i128,
    before: Option<i128>,
    granted: bool,
    after: Option<i128>,
    paid: bool,
) -> Result<i128, SoroswapError> {
    if before is None || !granted || after is None {
        Err(SoroswapError::SubInvocationFailed)
    } else {
        match (BalanceSnapshot { before: before.unwrap(), after: after.unwrap() }).verdict(
            min_profit,
        ) {
            Err(rejection) => Err(rejection),
            Ok(net) => if net > 0 && !paid {
                Err(SoroswapError::SubInvocationFailed)
            } else {
                Ok(net)
            },
        }
    }
}

/// The flash-loan receiver that runs an arbitrage through a batch of
/// invocations supplied by the caller.
pub struct PwndArbitrage;

impl PwndArbitrage {
    /// Validates the request and, where it passes, stores it for the
    /// callback. A rejected request leaves the environment as it was: nothing
    /// is stored and nothing is called.
    pub fn arm(e: &mut Env, request: &FlashLoanRequest) -> (verdict: Result<(), SoroswapError>)
        requires
            in_contract(*old(e)),
        ensures
            verdict == request.verdict(),
            verdict is Err ==> *final(e) == *old(e),
            verdict is Ok ==> request.well_formed() && stored_request(*final(e)) == Some(
                *request,
            ),
            in_contract(*final(e)),
    {
        match request.validate() {
            Err(rejection) => Err(rejection),
            Ok(()) => {
                FlashLoanRequestStore::put(e, request);
                Ok(())
            },
        }
    }

    /// Starts an arbitrage for `caller`, whose authorization the entry point
    /// has required: arms the request, asks `blend_pool` for `loan_amount` of
    /// `loan_asset`, and pays the net profit out to `caller`. It runs as a
    /// contract: the request goes into the running contract's storage, and
    /// the loan to its address.
    ///
    /// A batch that is empty or holds more than ten invocations, or a negative
    /// amount, is rejected before anything is stored or called. An asset or a
    /// pool that is no contract makes the call fail. After that the result
    /// follows [`arbitrage_outcome`] from what the asset and the pool report:
    /// in particular nothing is paid, and no profit returned, unless the gain
    /// over the pool call reaches `min_profit`.
    pub fn pwnd_arb(
        e: &mut Env,
        caller: Address,
        blend_pool: Address,
        loan_asset: Address,
        loan_amount: i128,
        invocations: HostVec<Invocation>,
        min_profit: i128,
    ) -> (outcome: Result<i128, SoroswapError>)
        requires
            in_contract(*old(e)),
        ensures
            request_verdict(batch_slots(invocations).len(), loan_amount, min_profit) matches Err(
                rejection,
            ) ==> outcome == Err::<i128, SoroswapError>(rejection) && *final(e) == *old(e),
            request_verdict(batch_slots(invocations).len(), loan_amount, min_profit) is Ok
                ==> exists|before: Option<i128>, granted: bool, after: Option<i128>, paid: bool|
                outcome == #[trigger] arbitrage_outcome(min_profit, before, granted, after, paid),
            request_verdict(batch_slots(invocations).len(), loan_amount, min_profit) is Ok && (
            !is_contract(loan_asset) || !is_contract(blend_pool)) ==> outcome == Err::<
                i128,
                SoroswapError,
            >(SoroswapError::SubInvocationFailed),
            outcome matches Ok(profit) ==> profit >= min_profit && min_profit >= 0,
            in_contract(*final(e)),
    {
        let request = FlashLoanRequest { invocations, loan_asset, loan_amount, min_profit, caller };
        match PwndArbitrage::arm(e, &request) {
            Err(rejection) => {
                return Err(rejection);
            },
            Ok(()) => {},
        }
        let own = host::current_contract(e);
        let before = balance_of(e, &request.loan_asset, &own);
        if before.is_none() {
            assert(arbitrage_outcome(min_profit, before, false, None, false) == Err::<
                i128,
                SoroswapError,
            >(SoroswapError::SubInvocationFailed));
            return Err(SoroswapError::SubInvocationFailed);
        }
        let loan = request.loan(&own);
        let requests = request.repayment();
        let granted = SoroswapRouter::flash_loan(e, &blend_pool, &request.caller, &loan, &requests);
        if granted.is_err() {
            assert(arbitrage_outcome(min_profit, before, false, None, false) == Err::<
                i128,
                SoroswapError,
            >(SoroswapError::SubInvocationFailed));
            return Err(SoroswapError::SubInvocationFailed);
        }
        let after = balance_of(e, &request.loan_asset, &own);
        if after.is_none() {
            assert(arbitrage_outcome(min_profit, before, true, after, false) == Err::<
                i128,
                SoroswapError,
            >(SoroswapError::SubInvocationFailed));
            return Err(SoroswapError::SubInvocationFailed);
        }
        let snapshot = BalanceSnapshot { before: before.unwrap(), after: after.unwrap() };
        match snapshot.settle(min_profit) {
            Err(rejection) => {
                assert(arbitrage_outcome(min_profit, before, true, after, false) == Err::<
                    i128,
                    SoroswapError,
                >(rejection));
                Err(rejection)
            },
            Ok(net_profit) => {
                let paid = net_profit <= 0 || transfer(
                    e,
                    &request.loan_asset,
                    &own,
                    &request.caller,
                    net_profit,
                );
                if paid {
                    assert(arbitrage_outcome(min_profit, before, true, after, true) == Ok::<
                        i128,
                        SoroswapError,
                    >(net_profit));
                    Ok(net_profit)
                } else {
                    assert(arbitrage_outcome(min_profit, before, true, after, false) == Err::<
                        i128,
                        SoroswapError,
                    >(SoroswapError::SubInvocationFailed));
                    Err(SoroswapError::SubInvocationFailed)
                }
            },
        }
    }

    /// The pool's callback while the loan is out: checks that the callback is
    /// the armed request's own, runs the request's batch, and makes sure that
    /// the balance covers `amount + fee`. The pool collects the repayment
    /// itself once the callback has returned; nothing is transferred here. It
    /// runs as a contract: the request is read from the running contract's
    /// storage, and the balance is that of its address.
    ///
    /// A callback without an armed request, or with an asset, amount or
    /// caller other than the request's, is rejected before anything is called.
    /// After that the result follows [`callback_outcome`] from how the batch
    /// ended and what the asset reports.
    pub fn exec_op(
        e: &mut Env,
        caller: Address,
        token: Address,
        amount: i128,
        fee: i128,
    ) -> (outcome: Result<(), SoroswapError>)
        requires
            in_contract(*old(e)),
        ensures
            callback_admission(stored_request(*old(e)), caller, token, amount) matches Err(
                rejection,
            ) ==> outcome == Err::<(), SoroswapError>(rejection) && *final(e) == *old(e),
            callback_admission(stored_request(*old(e)), caller, token, amount) is Ok
                ==> exists|batch: Result<(), SoroswapError>, balance: Option<i128>|
                fail_fast_ending(stored_slots(stored_request(*old(e))), batch) && outcome
                    == #[trigger] callback_outcome(
                    stored_request(*old(e)),
                    caller,
                    token,
                    amount,
                    fee,
                    batch,
                    balance,
                ),
            in_contract(*final(e)),
    {
        let stored = FlashLoanRequestStore::get(e);
        match admit_callback(&stored, &caller, &token, amount) {
            Err(rejection) => {
                return Err(rejection);
            },
            Ok(()) => {},
        }
        let request = stored.unwrap();
        let batch = run_fail_fast(e, &request.invocations);
        if batch.is_err() {
            assert(callback_outcome(
                stored_request(*old(e)),
                caller,
                token,
                amount,
                fee,
                batch,
                None,
            ) == batch);
            return batch;
        }
        let own = host::current_contract(e);
        let balance = balance_of(e, &token, &own);
        match balance {
            None => {
                assert(callback_outcome(
                    stored_request(*old(e)),
                    caller,
                    token,
                    amount,
                    fee,
                    batch,
                    balance,
                ) == Err::<(), SoroswapError>(SoroswapError::SubInvocationFailed));
                Err(SoroswapError::SubInvocationFailed)
            },
            Some(held) => {
                let verdict = check_repayment(held, amount, fee);
                assert(callback_outcome(
                    stored_request(*old(e)),
                    caller,
                    token,
                    amount,
                    fee,
                    batch,
                    balance,
                ) == verdict);
                verdict
            },
        }
    }

    /// Runs a batch on its own, each invocation under its own tolerance flag,
    /// for a caller whose authorization the entry point has required. The
    /// result list holds, position by position, what each invocation returned
    /// or the error value of its tolerated failure.
    pub fn pwnd_exec(e: &mut Env, invocations: HostVec<TolerantInvocation>) -> (results: Result<
        HostVec<Val>,
        SoroswapError,
    >)
        ensures
            fail_soft_ending(tolerant_slots(invocations), listed(results)),
            all_tolerant(tolerant_slots(invocations)) ==> results is Ok,
            tolerant_slots(invocations).len() == 0 ==> *final(e) == *old(e),
            tolerant_slots(invocations).len() > 0 && !tolerant_runnable(
                tolerant_slots(invocations)[0],
            ) ==> listed(results) == Err::<Seq<Val>, SoroswapError>(SoroswapError::InvalidParams)
                && *final(e) == *old(e),
            in_contract(*final(e)) == in_contract(*old(e)),
    {
        run_fail_soft(e, &invocations)
    }
}

/// What the initiating call stores is what the callback reads: once a
/// request is armed, the callback that brings the request's own asset, amount
/// and caller is admitted, and its result is decided by the batch and the
/// balance alone.
pub proof fn lemma_armed_request_admits_its_callback(
    e: Env,
    request: FlashLoanRequest,
    fee: i128,
    batch: Result<(), SoroswapError>,
    balance: Option<i128>,
)
    requires
        stored_request(e) == Some(request),
    ensures
        callback_admission(
            stored_request(e),
            request.caller,
            request.loan_asset,
            request.loan_amount,
        ) == Ok::<(), SoroswapError>(()),
        callback_outcome(
            stored_request(e),
            request.caller,
            request.loan_asset,
            request.loan_amount,
            fee,
            batch,
            balance,
        ) == callback_outcome(
            Some(request),
            request.caller,
            request.loan_asset,
            request.loan_amount,
            fee,
            batch,
            balance,
        ),
        batch is Ok && balance is Some ==> callback_outcome(
            stored_request(e),
            request.caller,
            request.loan_asset,
            request.loan_amount,
            fee,
            batch,
            balance,
        ) == repayment_verdict(balance.unwrap(), request.loan_amount, fee),
{
}

/// A callback that differs from the stored request in asset, amount or
/// caller is rejected as stale, however the batch might have ended and
/// whatever the balance: a request is never consumed by a callback that is
/// not its own.
pub proof fn lemma_mismatched_callback_rejected(
    request: FlashLoanRequest,
    caller: Address,
    asset: Address,
    amount: i128,
    fee: i128,
    batch: Result<(), SoroswapError>,
    balance: Option<i128>,
)
    requires
        request.loan_asset != asset || request.loan_amount != amount || request.caller != caller,
    ensures
        callback_admission(Some(request), caller, asset, amount) == Err::<(), SoroswapError>(
            SoroswapError::StaleOrMismatchedCallback,
        ),
        callback_outcome(Some(request), caller, asset, amount, fee, batch, balance) == Err::<
            (),
            SoroswapError,
        >(SoroswapError::StaleOrMismatchedCallback),
{
}

/// Where the store holds no request, because none was armed or because the
/// host has let it expire, every callback is rejected.
pub proof fn lemma_absent_request_rejected(
    caller: Address,
    asset: Address,
    amount: i128,
    fee: i128,
    batch: Result<(), SoroswapError>,
    balance: Option<i128>,
)
    ensures
        callback_outcome(None, caller, asset, amount, fee, batch, balance) == Err::<
            (),
            SoroswapError,
        >(SoroswapError::InvalidParams),
{
}

/// Solvency: a callback never succeeds on a balance below principal plus
/// fee, whatever is stored and however the batch ended.
pub proof fn lemma_short_balance_rejected(
    stored: Option<FlashLoanRequest>,
    caller: Address,
    asset: Address,
    amount: i128,
    fee: i128,
    batch: Result<(), SoroswapError>,
    held: i128,
)
    requires
        held < amount + fee,
    ensures
        callback_outcome(stored, caller, asset, amount, fee, batch, Some(held)) is Err,
        repayment_verdict(held, amount, fee) == Err::<(), SoroswapError>(
            SoroswapError::InsufficientRepaymentBalance,
        ),
{
}

/// Profit: once the pool has returned and both balances are read, a gain
/// below the threshold is rejected as insufficient, whether or not a payout
/// would have gone through.
pub proof fn lemma_short_profit_rejected(before: i128, after: i128, min_profit: i128, paid: bool)
    requires
        after - before < min_profit,
    ensures
        (BalanceSnapshot { before, after }).verdict(min_profit) == Err::<i128, SoroswapError>(
            SoroswapError::InsufficientProfit,
        ),
        arbitrage_outcome(min_profit, Some(before), true, Some(after), paid) == Err::<
            i128,
            SoroswapError,
        >(SoroswapError::InsufficientProfit),
{
}

/// A profit that is returned is the exact gain over the pool call, it
/// reaches the threshold, and where it is positive it has been paid out.
pub proof fn lemma_returned_profit_is_gain(
    min_profit: i128,
    before: Option<i128>,
    granted: bool,
    after: Option<i128>,
    paid: bool,
    profit: i128,
)
    requires
        arbitrage_outcome(min_profit, before, granted, after, paid) == Ok::<i128, SoroswapError>(
            profit,
        ),
    ensures
        granted,
        before is Some && after is Some,
        profit == after.unwrap() - before.unwrap(),
        profit >= min_profit,
        profit > 0 ==> paid,
{
}

} // verus!
