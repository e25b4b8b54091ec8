//! The boundary to the Soroban host.
//!
//! Everything here is believed, not proved: the host's types are declared
//! opaque, and each function below makes one kind of host call under a
//! contract that restates what the SDK documents.
//!
//! An [`Env`] stands for all that the host holds for the running contract:
//! its storage, the balances it can read, the contracts it can call. A
//! function that may change any of that takes the environment by `&mut`, and
//! says of the environment afterwards only what its contract states; one that
//! only reads takes it by `&`. The values that the host hands out (addresses,
//! symbols, raw values, vectors) never change once made, and are compared by
//! what they denote, not by the handle that carries them.
//!
//! Two things the host cannot do, and answers with a panic: serve the
//! storage, the address or the authorizations of the running contract where
//! no contract is running, and call something that is no contract. The
//! functions concerned leave both out by `requires`, over [`in_contract`] and
//! [`is_contract`]; [`contract_running`] and [`names_contract`] test for them.
//! None of the functions panics on a value of an unexpected shape: such a
//! value comes back as `None` or as a failure. What remains is the host's own
//! end of an invocation, as on an exhausted budget or on an error of its own.

use vstd::prelude::*;
use soroban_sdk::auth::{ContractContext, InvokerContractAuthEntry, SubContractInvocation};
use soroban_sdk::token::TokenClient;
use soroban_sdk::xdr::ScAddress;
use soroban_sdk::{Address, Env, IntoVal, Symbol, TryFromVal, Val};
use soroban_sdk::Vec as HostVec;
use crate::pool::{FlashLoan, Request};
use crate::request::FlashLoanRequest;

verus! {

/// One call to make: the contract, its function, the arguments.
pub type Invocation = (Address, Symbol, HostVec<Val>);

/// One call to make, and whether its failure is tolerated.
pub type TolerantInvocation = (Address, Symbol, HostVec<Val>, bool);

#[verifier::external_type_specification]
#[verifier::external_body]
pub struct ExEnv(Env);

#[verifier::external_type_specification]
#[verifier::external_body]
pub struct ExAddress(Address);

#[verifier::external_type_specification]
#[verifier::external_body]
pub struct ExSymbol(Symbol);

#[verifier::external_type_specification]
#[verifier::external_body]
pub struct ExVal(Val);

#[verifier::external_type_specification]
#[verifier::external_body]
#[verifier::reject_recursive_types(T)]
pub struct ExHostVec<T>(HostVec<T>);

/// `Address::clone`: the copy denotes the same address.
pub assume_specification[ <Address as Clone>::clone ](address: &Address) -> (copy: Address)
    ensures
        copy == *address,
;

/// Whether a contract is running in the environment, so that there is a
/// contract whose storage, address and authorizations the host can serve.
pub uninterp spec fn in_contract(e: Env) -> bool;

/// Whether the address is that of a contract, and not of an account.
pub uninterp spec fn is_contract(address: Address) -> bool;

/// The request that the running contract's slot in temporary storage holds,
/// where it holds one that has not expired and reads back as a request.
pub uninterp spec fn stored_request(e: Env) -> Option<FlashLoanRequest>;

/// The positions of a batch, in order: at each, the invocation found there,
/// or `None` where the value does not read as one.
pub uninterp spec fn batch_slots(batch: HostVec<Invocation>) -> Seq<Option<Invocation>>;

/// The positions of a batch with tolerance flags, in order: at each, the
/// invocation and its flag, or `None` where the value does not read as such.
pub uninterp spec fn tolerant_slots(batch: HostVec<TolerantInvocation>) -> Seq<
    Option<TolerantInvocation>,
>;

/// The values that a host vector holds, in order.
pub uninterp spec fn value_items(values: HostVec<Val>) -> Seq<Val>;

/// The value that stands for a loan on the wire to the pool.
pub uninterp spec fn encoded_flash_loan(loan: FlashLoan) -> Val;

/// The value that stands for a pool request on the wire.
pub uninterp spec fn encoded_request(request: Request) -> Val;

/// `Env::in_contract`: whether the host has a frame on its stack, which is
/// what it asks for before it serves a contract's storage.
#[verifier::external_body]
pub(crate) fn contract_running(e: &Env) -> (running: bool)
    ensures
        running == in_contract(*e),
{
    e.in_contract()
}

/// `ScAddress::from` on the address: whether it is of the kind `Contract`,
/// the one kind that the host accepts as the target of a call.
#[verifier::external_body]
pub(crate) fn names_contract(address: &Address) -> (named: bool)
    ensures
        named == is_contract(*address),
{
    matches!(ScAddress::from(address), ScAddress::Contract(_))
}

/// `Address::eq`: two addresses compare equal exactly when they denote the
/// same account or contract.
#[verifier::external_body]
pub(crate) fn same_address(a: &Address, b: &Address) -> (same: bool)
    ensures
        same == (*a == *b),
{
    a == b
}

/// `Temporary::set` on the request's slot: afterwards the slot holds the
/// request. An earlier entry is overwritten. The storage is that of the
/// running contract, which there has to be.
#[verifier::external_body]
pub(crate) fn store_request(e: &mut Env, request: &FlashLoanRequest)
    requires
        in_contract(*old(e)),
    ensures
        stored_request(*final(e)) == Some(*request),
        in_contract(*final(e)),
{
    let slot = Symbol::new(e, "FLREQ");
    let entry = (
        request.invocations.clone(),
        request.loan_asset.clone(),
        request.loan_amount,
        request.min_profit,
        request.caller.clone(),
    );
    e.storage().temporary().set(&slot, &entry);
}

/// `Temporary::get` on the request's slot, read as a raw value, and
/// `TryFromVal::try_from_val` on its fields, so that an entry which is no
/// vector of the request's five fields counts as absent. The storage is that
/// of the running contract, which there has to be.
#[verifier::external_body]
pub(crate) fn load_request(e: &Env) -> (found: Option<FlashLoanRequest>)
    requires
        in_contract(*e),
    ensures
        found == stored_request(*e),
{
    let raw: Val = e.storage().temporary().get(&Symbol::new(e, "FLREQ"))?;
    let fields: Vec<Val> = HostVec::<Val>::try_from_val(e, &raw).ok()?.iter().collect();
    let fields: [Val; 5] = fields.try_into().ok()?;
    let (invocations, loan_asset, loan_amount, min_profit, caller) =
        TryFromVal::try_from_val(e, &fields).ok()?;
    Some(FlashLoanRequest { invocations, loan_asset, loan_amount, min_profit, caller })
}

/// `Vec::len` on a batch.
#[verifier::external_body]
pub(crate) fn batch_len(batch: &HostVec<Invocation>) -> (len: u32)
    ensures
        len == batch_slots(*batch).len(),
{
    batch.len()
}

/// `Vec::get` on a batch read as raw values, within bounds, and
/// `TryFromVal::try_from_val` on the fields of what is found: the invocation
/// at `index`, or `None` where the value there is no vector of a contract, a
/// function name and a vector of arguments.
#[verifier::external_body]
pub(crate) fn batch_item(batch: &HostVec<Invocation>, index: u32) -> (item: Option<Invocation>)
    requires
        index < batch_slots(*batch).len(),
    ensures
        item == batch_slots(*batch)[index as int],
{
    let e = batch.env();
    let raw: Val = batch.to_vals().get(index)?;
    let fields: Vec<Val> = HostVec::<Val>::try_from_val(e, &raw).ok()?.iter().collect();
    let fields: [Val; 3] = fields.try_into().ok()?;
    TryFromVal::try_from_val(e, &fields).ok()
}

/// `Vec::len` on a batch with tolerance flags.
#[verifier::external_body]
pub(crate) fn tolerant_len(batch: &HostVec<TolerantInvocation>) -> (len: u32)
    ensures
        len == tolerant_slots(*batch).len(),
{
    batch.len()
}

/// `Vec::get` on a batch with tolerance flags read as raw values, within
/// bounds, and `TryFromVal::try_from_val` on the fields of what is found: the
/// invocation at `index` with its flag, or `None` where the value there is no
/// vector of a contract, a function name, a vector of arguments and a flag.
#[verifier::external_body]
pub(crate) fn tolerant_item(batch: &HostVec<TolerantInvocation>, index: u32) -> (item: Option<
    TolerantInvocation,
>)
    requires
        index < tolerant_slots(*batch).len(),
    ensures
        item == tolerant_slots(*batch)[index as int],
{
    let e = batch.env();
    let raw: Val = batch.to_vals().get(index)?;
    let fields: Vec<Val> = HostVec::<Val>::try_from_val(e, &raw).ok()?.iter().collect();
    let fields: [Val; 4] = fields.try_into().ok()?;
    TryFromVal::try_from_val(e, &fields).ok()
}

/// `Vec::new`: an empty vector of values.
#[verifier::external_body]
pub(crate) fn values_new(e: &Env) -> (values: HostVec<Val>)
    ensures
        value_items(values) == Seq::<Val>::empty(),
{
    HostVec::new(e)
}

/// `Vec::push_back`: the value is added at the end.
#[verifier::external_body]
pub(crate) fn values_push(values: &mut HostVec<Val>, value: Val)
    ensures
        value_items(*final(values)) == value_items(*old(values)).push(value),
{
    values.push_back(value);
}

/// `Env::try_invoke_contract`: calls `entry` on `target`, which has to be a
/// contract for the host to try the call at all. `Ok` holds what the
/// call returned, `Err` the error value with which it failed; which of the two
/// comes back is the callee's to decide. A failed call leaves no effect behind.
/// With raw values on both sides no conversion can fail; the two cases that
/// the result's type still leaves open are passed on as a failure that holds
/// the void value.
#[verifier::external_body]
pub(crate) fn try_invoke(
    e: &mut Env,
    target: &Address,
    entry: &Symbol,
    arguments: HostVec<Val>,
) -> (outcome: Result<Val, Val>)
    requires
        is_contract(*target),
    ensures
        in_contract(*final(e)) == in_contract(*old(e)),
{
    match e.try_invoke_contract::<Val, Val>(target, entry, arguments) {
        Ok(Ok(value)) => Ok(value),
        Err(Ok(error)) => Err(error),
        Ok(Err(_)) | Err(Err(_)) => Err(Val::VOID.to_val()),
    }
}

/// `Env::current_contract_address`: the address of the running contract,
/// which there has to be.
#[verifier::external_body]
pub(crate) fn current_contract(e: &Env) -> (own: Address)
    requires
        in_contract(*e),
{
    e.current_contract_address()
}

/// `TokenClient::try_balance`: what the token contract `asset` reports as the
/// balance of `holder`, or `None` where the call fails or answers with
/// something that is no amount. The host tries the call only on a contract.
#[verifier::external_body]
pub(crate) fn token_balance(e: &mut Env, asset: &Address, holder: &Address) -> (balance: Option<
    i128,
>)
    requires
        is_contract(*asset),
    ensures
        in_contract(*final(e)) == in_contract(*old(e)),
{
    match TokenClient::new(e, asset).try_balance(holder) {
        Ok(Ok(balance)) => Some(balance),
        _ => None,
    }
}

/// `TokenClient::try_transfer`: asks the token contract `asset` to move
/// `amount` from `from` to `to`, and says whether the call went through. The
/// host tries the call only on a contract.
#[verifier::external_body]
pub(crate) fn token_transfer(
    e: &mut Env,
    asset: &Address,
    from: &Address,
    to: &Address,
    amount: i128,
) -> (done: bool)
    requires
        is_contract(*asset),
    ensures
        in_contract(*final(e)) == in_contract(*old(e)),
{
    matches!(TokenClient::new(e, asset).try_transfer(from, to, &amount), Ok(Ok(())))
}

/// `Map::from_array` on the loan's fields: the value that stands for the loan
/// on the wire, a map from the field names `amount`, `asset` and `contract`
/// to the fields. Equal loans give values that denote the same map.
#[verifier::external_body]
pub(crate) fn encode_flash_loan(e: &Env, loan: &FlashLoan) -> (encoded: Val)
    ensures
        encoded == encoded_flash_loan(*loan),
{
    soroban_sdk::Map::<Symbol, Val>::from_array(
        e,
        [
            (Symbol::new(e, "amount"), loan.amount.into_val(e)),
            (Symbol::new(e, "asset"), loan.asset.to_val()),
            (Symbol::new(e, "contract"), loan.contract.to_val()),
        ],
    ).to_val()
}

/// `Map::from_array` on the request's fields: the value that stands for the
/// request on the wire, a map from the field names `address`, `amount` and
/// `request_type` to the fields. Equal requests give values that denote the
/// same map.
#[verifier::external_body]
pub(crate) fn encode_request(e: &Env, request: &Request) -> (encoded: Val)
    ensures
        encoded == encoded_request(*request),
{
    soroban_sdk::Map::<Symbol, Val>::from_array(
        e,
        [
            (Symbol::new(e, "address"), request.address.to_val()),
            (Symbol::new(e, "amount"), request.amount.into_val(e)),
            (Symbol::new(e, "request_type"), request.request_type.into_val(e)),
        ],
    ).to_val()
}

/// `Env::try_invoke_contract` on the pool's `flash_loan`, with the borrower,
/// the encoded loan and the encoded requests as arguments. Says whether the
/// call went through; while it runs the pool may call back into the borrower.
/// The host tries the call only on a contract.
#[verifier::external_body]
pub(crate) fn pool_flash_loan(
    e: &mut Env,
    pool: &Address,
    from: &Address,
    loan: Val,
    requests: HostVec<Val>,
) -> (granted: bool)
    requires
        is_contract(*pool),
    ensures
        in_contract(*final(e)) == in_contract(*old(e)),
{
    let arguments = HostVec::from_array(e, [from.to_val(), loan, requests.to_val()]);
    e.try_invoke_contract::<Val, Val>(pool, &Symbol::new(e, "flash_loan"), arguments).is_ok()
}

/// `Env::try_invoke_contract` on the router's `swap_exact_tokens_for_tokens`,
/// along the direct path from `token_in` to `token_out`. `Some` holds the
/// amounts that the router reports, one for each asset of the path; `None`
/// says that the call failed or answered with something else. The host tries
/// the call only on a contract.
#[verifier::external_body]
pub(crate) fn router_swap(
    e: &mut Env,
    router: &Address,
    amount_in: i128,
    amount_out_min: i128,
    token_in: &Address,
    token_out: &Address,
    to: &Address,
    deadline: u64,
) -> (amounts: Option<Vec<i128>>)
    requires
        is_contract(*router),
    ensures
        in_contract(*final(e)) == in_contract(*old(e)),
{
    let path = HostVec::from_array(e, [token_in.clone(), token_out.clone()]).to_val();
    let amounts: [Val; 2] = [amount_in.into_val(e), amount_out_min.into_val(e)];
    let arguments =
        HostVec::from_array(e, [amounts[0], amounts[1], path, to.to_val(), deadline.into_val(e)]);
    let entry = Symbol::new(e, "swap_exact_tokens_for_tokens");
    match e.try_invoke_contract::<HostVec<i128>, Val>(router, &entry, arguments) {
        Ok(Ok(amounts)) => amounts.try_iter().collect::<Result<Vec<i128>, _>>().ok(),
        _ => None,
    }
}

/// `Env::try_invoke_contract` on the router's `router_pair_for`: the address
/// of the pair contract for the two tokens, or `None` where the call fails.
/// The host tries the call only on a contract.
#[verifier::external_body]
pub(crate) fn router_pair_for(
    e: &mut Env,
    router: &Address,
    token_a: &Address,
    token_b: &Address,
) -> (pair: Option<Address>)
    requires
        is_contract(*router),
    ensures
        in_contract(*final(e)) == in_contract(*old(e)),
{
    let arguments = HostVec::from_array(e, [token_a.to_val(), token_b.to_val()]);
    let entry = Symbol::new(e, "router_pair_for");
    match e.try_invoke_contract::<Address, Val>(router, &entry, arguments) {
        Ok(Ok(pair)) => Some(pair),
        _ => None,
    }
}

/// `Env::authorize_as_current_contract`: lets the next call that the running
/// contract makes have `token`'s `transfer` of `amount` from `from` to `to`
/// carried out in the contract's name. There has to be a running contract
/// to give the name.
#[verifier::external_body]
pub(crate) fn authorize_transfer(
    e: &mut Env,
    token: &Address,
    from: &Address,
    to: &Address,
    amount: i128,
)
    requires
        in_contract(*old(e)),
    ensures
        in_contract(*final(e)),
{
    let context = ContractContext {
        contract: token.clone(),
        fn_name: Symbol::new(e, "transfer"),
        args: HostVec::from_array(e, [from.to_val(), to.to_val(), amount.into_val(e)]),
    };
    let entry = InvokerContractAuthEntry::Contract(
        SubContractInvocation { context, sub_invocations: HostVec::new(e) },
    );
    e.authorize_as_current_contract(HostVec::from_array(e, [entry]));
}

/// `Env::try_invoke_contract` on the vault's `deposit`, with one desired
/// amount and one minimum amount. Says whether the call went through. The
/// host tries the call only on a contract.
#[verifier::external_body]
pub(crate) fn vault_deposit(
    e: &mut Env,
    vault: &Address,
    amount: i128,
    amount_min: i128,
    from: &Address,
    invest: bool,
) -> (done: bool)
    requires
        is_contract(*vault),
    ensures
        in_contract(*final(e)) == in_contract(*old(e)),
{
    let desired = HostVec::from_array(e, [amount]).to_val();
    let least = HostVec::from_array(e, [amount_min]).to_val();
    let arguments = HostVec::from_array(e, [desired, least, from.to_val(), invest.into_val(e)]);
    e.try_invoke_contract::<Val, Val>(vault, &Symbol::new(e, "deposit"), arguments).is_ok()
}

} // verus!
