//! Calls into other contracts, each made only where the host can make it:
//! the target is tested first, and a target that is no contract is answered
//! here, without a call.

use vstd::prelude::*;
use soroban_sdk::{Address, Env, Symbol, Val};
use soroban_sdk::Vec as HostVec;
use crate::host::{self, in_contract, is_contract};

verus! {

/// Whether a contract is running in the environment. The functions that
/// reach for the running contract's storage, address or authorizations ask
/// for one.
pub fn contract_running(e: &Env) -> (running: bool)
    ensures
        running == in_contract(*e),
{
    host::contract_running(e)
}

/// Whether the address is that of a contract.
pub fn is_contract_address(address: &Address) -> (named: bool)
    ensures
        named == is_contract(*address),
{
    host::names_contract(address)
}

/// Calls `entry` on `target` with `arguments`. `None` says that `target` is
/// no contract, and that nothing was called; else the call was made, and
/// `Ok` holds what it returned, `Err` the error value it failed with.
pub fn invoke(e: &mut Env, target: &Address, entry: &Symbol, arguments: HostVec<Val>) -> (outcome:
    Option<Result<Val, Val>>)
    ensures
        outcome is Some <==> is_contract(*target),
        outcome is None ==> *final(e) == *old(e),
        in_contract(*final(e)) == in_contract(*old(e)),
{
    if host::names_contract(target) {
        Some(host::try_invoke(e, target, entry, arguments))
    } else {
        None
    }
}

/// What the token `asset` reports as the balance of `holder`. `None` says
/// that there is no reading: `asset` is no contract, and was not called, or
/// its call failed or answered with something that is no amount.
pub fn balance_of(e: &mut Env, asset: &Address, holder: &Address) -> (balance: Option<i128>)
    ensures
        balance is Some ==> is_contract(*asset),
        !is_contract(*asset) ==> *final(e) == *old(e),
        in_contract(*final(e)) == in_contract(*old(e)),
{
    if host::names_contract(asset) {
        host::token_balance(e, asset, holder)
    } else {
        None
    }
}

/// Asks the token `asset` to move `amount` from `from` to `to`, and says
/// whether that went through. It did not where `asset` is no contract; then
/// nothing was called.
pub fn transfer(e: &mut Env, asset: &Address, from: &Address, to: &Address, amount: i128) -> (done:
    bool)
    ensures
        done ==> is_contract(*asset),
        !is_contract(*asset) ==> *final(e) == *old(e),
        in_contract(*final(e)) == in_contract(*old(e)),
{
    if host::names_contract(asset) {
        host::token_transfer(e, asset, from, to, amount)
    } else {
        false
    }
}

} // verus!
