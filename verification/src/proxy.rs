//! The proxies: one authorized pass-through each to the swap router, and to
//! router and vault in turn. They keep no state between calls.

use vstd::prelude::*;
use soroban_sdk::{Address, Env};
use crate::error::SoroswapError;
use crate::host::{self, in_contract, is_contract};
use crate::validation::{check_nonnegative_amount, nonnegative_verdict};

verus! {

/// The amount received in a swap: the router reports one amount for each
/// asset of the path, and the last is that of the final asset.
pub open spec fn received_amount(amounts: Seq<i128>) -> Option<i128> {
    if amounts.len() == 0 {
        None
    } else {
        Some(amounts.last())
    }
}

/// Reads the amount received off the router's report.
pub fn received(amounts: &Vec<i128>) -> (amount: Option<i128>)
    ensures
        amount == received_amount(amounts@),
{
    if amounts.len() == 0 {
        None
    } else {
        Some(amounts[amounts.len() - 1])
    }
}

/// What [`conclude_swap`] answers: a router whose call failed, or whose
/// report names no amount, gives no swap.
pub open spec fn report_verdict(reported: Option<Seq<i128>>) -> Result<i128, SoroswapError> {
    match reported {
        None => Err(SoroswapError::SubInvocationFailed),
        Some(amounts) => match received_amount(amounts) {
            None => Err(SoroswapError::InvalidParams),
            Some(out) => Ok(out),
        },
    }
}

/// A swap as a function of what the router reports: `None` where its call
/// failed, else the amounts along the path.
pub open spec fn swap_outcome(amount: i128, reported: Option<Seq<i128>>) -> Result<
    i128,
    SoroswapError,
> {
    match nonnegative_verdict(amount) {
        Err(rejection) => Err(rejection),
        Ok(()) => report_verdict(reported),
    }
}

/// A deposit as a function of what the router reports and of whether the
/// vault took the deposit.
pub open spec fn deposit_outcome(
    amount: i128,
    reported: Option<Seq<i128>>,
    deposited: bool,
) -> Result<i128, SoroswapError> {
    match swap_outcome(amount, reported) {
        Err(rejection) => Err(rejection),
        Ok(swapped) => if deposited {
            Ok(swapped)
        } else {
            Err(SoroswapError::SubInvocationFailed)
        },
    }
}

/// The router's report as a sequence of amounts.
pub open spec fn report_of(reported: Option<Vec<i128>>) -> Option<Seq<i128>> {
    match reported {
        None => None,
        Some(amounts) => Some(amounts@),
    }
}

/// Turns the router's report into the result of the swap.
pub fn conclude_swap(reported: &Option<Vec<i128>>) -> (outcome: Result<i128, SoroswapError>)
    ensures
        outcome == report_verdict(report_of(*reported)),
{
    match reported {
        None => Err(SoroswapError::SubInvocationFailed),
        Some(amounts) => match received(amounts) {
            None => Err(SoroswapError::InvalidParams),
            Some(out) => Ok(out),
        },
    }
}

/// Asks `router` to swap `amount` of `token_in` for `token_out` on behalf of
/// `to`, and hands back its report. `None` says that there is none: `router`
/// is no contract, and was not called, or its call failed.
pub fn ask_router(
    e: &mut Env,
    router: &Address,
    amount: i128,
    token_in: &Address,
    token_out: &Address,
    to: &Address,
) -> (reported: Option<Vec<i128>>)
    ensures
        !is_contract(*router) ==> reported is None && *final(e) == *old(e),
        in_contract(*final(e)) == in_contract(*old(e)),
{
    if host::names_contract(router) {
        host::router_swap(e, router, amount, MIN_AMOUNT_OUT, token_in, token_out, to, NO_DEADLINE)
    } else {
        None
    }
}

/// The lowest amount out that the proxies accept from the router.
pub const MIN_AMOUNT_OUT: i128 = 0;

/// The deadline that the proxies hand to the router: none to speak of.
pub const NO_DEADLINE: u64 = u64::MAX;

/// What the zapper tells the vault about investing a deposit: leave it idle.
pub const KEEP_IDLE: bool = false;

/// The direct proxy: the caller's signature lets the router move the
/// caller's tokens, and the proxy only passes the call on.
pub struct SoroswapSimple;

impl SoroswapSimple {
    /// Swaps `amount` of `token_in` for `token_out` through `router`, on
    /// behalf of `caller`, whose authorization the entry point has required,
    /// and returns the amount of `token_out` received.
    ///
    /// A negative amount is rejected before anything is called. After that
    /// the result follows [`swap_outcome`] from what the router reports.
    pub fn swap(
        e: &mut Env,
        router: &Address,
        caller: Address,
        token_in: Address,
        token_out: Address,
        amount: i128,
    ) -> (outcome: Result<i128, SoroswapError>)
        ensures
            amount < 0 ==> outcome == Err::<i128, SoroswapError>(SoroswapError::NegativeAmount)
                && *final(e) == *old(e),
            amount >= 0 && !is_contract(*router) ==> outcome == Err::<i128, SoroswapError>(
                SoroswapError::SubInvocationFailed,
            ) && *final(e) == *old(e),
            exists|reported: Option<Seq<i128>>|
                outcome == #[trigger] swap_outcome(amount, reported),
            in_contract(*final(e)) == in_contract(*old(e)),
    {
        match check_nonnegative_amount(amount) {
            Err(rejection) => {
                assert(swap_outcome(amount, None) == Err::<i128, SoroswapError>(rejection));
                return Err(rejection);
            },
            Ok(()) => {},
        }
        let reported = ask_router(e, router, amount, &token_in, &token_out, &caller);
        let outcome = conclude_swap(&reported);
        assert(outcome == swap_outcome(amount, report_of(reported)));
        outcome
    }
}

/// The proxy that adds an authorization of its own: before the swap it lets
/// the token transfer into the pair be made in the contract's name.
pub struct SoroswapAuth;

impl SoroswapAuth {
    /// Swaps `amount` of `token_in` for `token_out` through `router`, on
    /// behalf of `caller`, whose authorization the entry point has required,
    /// and returns the amount of `token_out` received. The pair contract is
    /// asked of the router first, and the transfer of `amount` from `caller`
    /// into the pair is authorized in the name of the running contract, so
    /// there has to be one.
    ///
    /// A negative amount is rejected before anything is called. After that
    /// the result follows [`swap_outcome`] from what the router reports, a
    /// router that names no pair counting as one whose call failed.
    pub fn swap(
        e: &mut Env,
        router: &Address,
        caller: Address,
        token_in: Address,
        token_out: Address,
        amount: i128,
    ) -> (outcome: Result<i128, SoroswapError>)
        requires
            in_contract(*old(e)),
        ensures
            amount < 0 ==> outcome == Err::<i128, SoroswapError>(SoroswapError::NegativeAmount)
                && *final(e) == *old(e),
            amount >= 0 && !is_contract(*router) ==> outcome == Err::<i128, SoroswapError>(
                SoroswapError::SubInvocationFailed,
            ) && *final(e) == *old(e),
            exists|reported: Option<Seq<i128>>|
                outcome == #[trigger] swap_outcome(amount, reported),
            in_contract(*final(e)),
    {
        match check_nonnegative_amount(amount) {
            Err(rejection) => {
                assert(swap_outcome(amount, None) == Err::<i128, SoroswapError>(rejection));
                return Err(rejection);
            },
            Ok(()) => {},
        }
        let named = if host::names_contract(router) {
            host::router_pair_for(e, router, &token_in, &token_out)
        } else {
            None
        };
        let pair = match named {
            None => {
                assert(swap_outcome(amount, None) == Err::<i128, SoroswapError>(
                    SoroswapError::SubInvocationFailed,
                ));
                return Err(SoroswapError::SubInvocationFailed);
            },
            Some(pair) => pair,
        };
        host::authorize_transfer(e, &token_in, &caller, &pair, amount);
        let reported = ask_router(e, router, amount, &token_in, &token_out, &caller);
        let outcome = conclude_swap(&reported);
        assert(outcome == swap_outcome(amount, report_of(reported)));
        outcome
    }
}

/// The zapper: swaps whatever token the caller holds into the vault's
/// underlying asset and deposits the proceeds, in one call.
pub struct DeFindexSimple;

impl DeFindexSimple {
    /// Swaps `amount` of `token_in` for `underlying_asset` through `router`
    /// and deposits what was received into `vault`, both on behalf of
    /// `caller`, whose authorization the entry point has required. Returns the
    /// amount deposited. The deposit is left idle in the vault.
    ///
    /// A negative amount is rejected before anything is called. After that
    /// the result follows [`deposit_outcome`] from what the router reports and
    /// from whether the vault took the deposit.
    pub fn deposit(
        e: &mut Env,
        router: &Address,
        vault: &Address,
        underlying_asset: &Address,
        caller: Address,
        token_in: Address,
        amount: i128,
    ) -> (outcome: Result<i128, SoroswapError>)
        ensures
            amount < 0 ==> outcome == Err::<i128, SoroswapError>(SoroswapError::NegativeAmount)
                && *final(e) == *old(e),
            amount >= 0 && !is_contract(*router) ==> outcome == Err::<i128, SoroswapError>(
                SoroswapError::SubInvocationFailed,
            ) && *final(e) == *old(e),
            exists|reported: Option<Seq<i128>>, deposited: bool|
                outcome == #[trigger] deposit_outcome(amount, reported, deposited),
            outcome is Ok ==> is_contract(*vault),
            in_contract(*final(e)) == in_contract(*old(e)),
    {
        match check_nonnegative_amount(amount) {
            Err(rejection) => {
                assert(deposit_outcome(amount, None, false) == Err::<i128, SoroswapError>(
                    rejection,
                ));
                return Err(rejection);
            },
            Ok(()) => {},
        }
        let reported = ask_router(e, router, amount, &token_in, underlying_asset, &caller);
        let ghost report = report_of(reported);
        match conclude_swap(&reported) {
            Err(rejection) => {
                assert(deposit_outcome(amount, report, false) == Err::<i128, SoroswapError>(
                    rejection,
                ));
                Err(rejection)
            },
            Ok(swapped) => {
                let deposited = host::names_contract(vault) && host::vault_deposit(
                    e,
                    vault,
                    swapped,
                    MIN_AMOUNT_OUT,
                    &caller,
                    KEEP_IDLE,
                );
                assert(deposit_outcome(amount, report, deposited) == if deposited {
                    Ok::<i128, SoroswapError>(swapped)
                } else {
                    Err::<i128, SoroswapError>(SoroswapError::SubInvocationFailed)
                });
                if deposited {
                    Ok(swapped)
                } else {
                    Err(SoroswapError::SubInvocationFailed)
                }
            },
        }
    }
}

/// A swap never returns more than one amount of the report, and it is the
/// last: the report's other entries have no part in the result.
pub proof fn lemma_swap_returns_last(amount: i128, amounts: Seq<i128>)
    requires
        amount >= 0,
        amounts.len() > 0,
    ensures
        swap_outcome(amount, Some(amounts)) == Ok::<i128, SoroswapError>(amounts.last()),
        forall|deposited: bool|
            deposit_outcome(amount, Some(amounts), deposited) is Ok ==> deposited
                && #[trigger] deposit_outcome(amount, Some(amounts), deposited) == Ok::<
                i128,
                SoroswapError,
            >(amounts.last()),
{
}

} // verus!
