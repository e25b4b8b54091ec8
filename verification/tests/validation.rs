use soroban_sdk::testutils::{Address as _, ContractFunctionSet, EnvTestConfig};
use soroban_sdk::{Address, Env, Symbol, Val, Vec};
use soroswap_coordinators::arbitrage::{check_repayment, BalanceSnapshot};
use soroswap_coordinators::validation::{validate_request, MAX_INVOCATIONS};
use soroswap_coordinators::{
    check_nonnegative_amount, PwndArbitrage, Request, RequestType, SoroswapError,
};

fn quiet_env() -> Env {
    Env::new_with_config(EnvTestConfig { capture_snapshot_at_drop: false })
}

/// A contract with no functions: the coordinator's place on the ledger.
struct Bare;

impl ContractFunctionSet for Bare {
    fn call(&self, _func: &str, _env: Env, _args: &[Val]) -> Option<Val> {
        None
    }
}

fn initiate(
    env: &Env,
    caller: Address,
    pool: Address,
    asset: Address,
    loan_amount: i128,
    invocations: Vec<(Address, Symbol, Vec<Val>)>,
    min_profit: i128,
) -> Result<i128, SoroswapError> {
    let contract_id = env.register(Bare, ());
    let mut e = env.clone();
    env.as_contract(&contract_id, || {
        PwndArbitrage::pwnd_arb(&mut e, caller, pool, asset, loan_amount, invocations, min_profit)
    })
}

fn batch_of(env: &Env, len: u32) -> Vec<(Address, Symbol, Vec<Val>)> {
    let mut batch: Vec<(Address, Symbol, Vec<Val>)> = Vec::new(env);
    for _ in 0..len {
        batch.push_back((Address::generate(env), Symbol::new(env, "swap"), Vec::new(env)));
    }
    batch
}

#[test]
fn test_validate_invocations() {
    let env = quiet_env();
    let caller = Address::generate(&env);
    let blend_pool = Address::generate(&env);
    let loan_asset = Address::generate(&env);
    let invocations: Vec<(Address, Symbol, Vec<Val>)> = Vec::new(&env);

    let result = initiate(
        &env,
        caller,
        blend_pool,
        loan_asset,
        1000i128,
        invocations,
        100i128,
    );

    assert!(result.is_err());
}

#[test]
fn test_invalid_params() {
    let env = quiet_env();
    let caller = Address::generate(&env);
    let blend_pool = Address::generate(&env);
    let loan_asset = Address::generate(&env);
    let invocations: Vec<(Address, Symbol, Vec<Val>)> = Vec::new(&env);

    let result = initiate(
        &env,
        caller.clone(),
        blend_pool.clone(),
        loan_asset.clone(),
        -1000i128,
        invocations.clone(),
        100i128,
    );

    assert!(result.is_err());

    let result = initiate(
        &env,
        caller,
        blend_pool,
        loan_asset,
        1000i128,
        invocations,
        -100i128,
    );

    assert!(result.is_err());
}

#[test]
fn empty_batch_is_rejected_as_such() {
    let env = quiet_env();
    let caller = Address::generate(&env);
    let pool = Address::generate(&env);
    let asset = Address::generate(&env);
    let batch = batch_of(&env, 0);
    let result = initiate(&env, caller, pool, asset, 1000, batch, 100);
    assert_eq!(result, Err(SoroswapError::EmptyOrOversizedBatch));
}

#[test]
fn oversized_batch_is_rejected_as_such() {
    let env = quiet_env();
    let caller = Address::generate(&env);
    let pool = Address::generate(&env);
    let asset = Address::generate(&env);
    let batch = batch_of(&env, 11);
    let result = initiate(&env, caller, pool, asset, 1000, batch, 100);
    assert_eq!(result, Err(SoroswapError::EmptyOrOversizedBatch));
}

#[test]
fn batch_size_is_judged_before_amounts() {
    let env = quiet_env();
    let caller = Address::generate(&env);
    let pool = Address::generate(&env);
    let asset = Address::generate(&env);
    let batch = batch_of(&env, 0);
    let result = initiate(&env, caller, pool, asset, -1, batch, -1);
    assert_eq!(result, Err(SoroswapError::EmptyOrOversizedBatch));
}

#[test]
fn negative_loan_amount_is_rejected() {
    let env = quiet_env();
    let caller = Address::generate(&env);
    let pool = Address::generate(&env);
    let asset = Address::generate(&env);
    let batch = batch_of(&env, 1);
    let result = initiate(&env, caller, pool, asset, -1, batch, 100);
    assert_eq!(result, Err(SoroswapError::NegativeAmount));
}

#[test]
fn negative_min_profit_is_rejected() {
    let env = quiet_env();
    let caller = Address::generate(&env);
    let pool = Address::generate(&env);
    let asset = Address::generate(&env);
    let batch = batch_of(&env, 10);
    let result = initiate(&env, caller, pool, asset, 1000, batch, -1);
    assert_eq!(result, Err(SoroswapError::NegativeAmount));
}

#[test]
fn request_limits() {
    assert_eq!(MAX_INVOCATIONS, 10);
    assert_eq!(validate_request(0, 0, 0), Err(SoroswapError::EmptyOrOversizedBatch));
    assert_eq!(validate_request(1, 0, 0), Ok(()));
    assert_eq!(validate_request(10, 1000, 100), Ok(()));
    assert_eq!(validate_request(11, 1000, 100), Err(SoroswapError::EmptyOrOversizedBatch));
    assert_eq!(validate_request(u32::MAX, 1000, 100), Err(SoroswapError::EmptyOrOversizedBatch));
    assert_eq!(validate_request(1, -1, 0), Err(SoroswapError::NegativeAmount));
    assert_eq!(validate_request(1, 0, -1), Err(SoroswapError::NegativeAmount));
    assert_eq!(validate_request(1, i128::MIN, i128::MAX), Err(SoroswapError::NegativeAmount));
    assert_eq!(validate_request(1, i128::MAX, i128::MAX), Ok(()));
}

#[test]
fn nonnegative_amounts() {
    assert_eq!(check_nonnegative_amount(0), Ok(()));
    assert_eq!(check_nonnegative_amount(1), Ok(()));
    assert_eq!(check_nonnegative_amount(i128::MAX), Ok(()));
    assert_eq!(check_nonnegative_amount(-1), Err(SoroswapError::NegativeAmount));
    assert_eq!(check_nonnegative_amount(i128::MIN), Err(SoroswapError::NegativeAmount));
}

#[test]
fn repayment_is_principal_plus_fee() {
    assert_eq!(check_repayment(1050, 1000, 0), Ok(()));
    assert_eq!(check_repayment(1000, 1000, 0), Ok(()));
    assert_eq!(check_repayment(990, 1000, 0), Err(SoroswapError::InsufficientRepaymentBalance));
    assert_eq!(check_repayment(1004, 1000, 5), Err(SoroswapError::InsufficientRepaymentBalance));
    assert_eq!(check_repayment(1005, 1000, 5), Ok(()));
    assert_eq!(check_repayment(0, 0, 0), Ok(()));
    assert_eq!(check_repayment(-1, 0, 0), Err(SoroswapError::InsufficientRepaymentBalance));
}

#[test]
fn repayment_beyond_the_range_of_amounts() {
    assert_eq!(
        check_repayment(i128::MAX, i128::MAX, 1),
        Err(SoroswapError::InsufficientRepaymentBalance)
    );
    assert_eq!(check_repayment(i128::MIN, i128::MIN, -1), Ok(()));
    assert_eq!(check_repayment(i128::MAX, i128::MAX, 0), Ok(()));
    assert_eq!(check_repayment(i128::MAX, 1, i128::MAX - 1), Ok(()));
}

#[test]
fn profit_is_the_gain_over_the_pool_call() {
    assert_eq!(BalanceSnapshot { before: 0, after: 50 }.settle(40), Ok(50));
    assert_eq!(BalanceSnapshot { before: 200, after: 250 }.settle(50), Ok(50));
    assert_eq!(
        BalanceSnapshot { before: 200, after: 249 }.settle(50),
        Err(SoroswapError::InsufficientProfit)
    );
    assert_eq!(BalanceSnapshot { before: 7, after: 7 }.settle(0), Ok(0));
    assert_eq!(
        BalanceSnapshot { before: 7, after: 6 }.settle(0),
        Err(SoroswapError::InsufficientProfit)
    );
    assert_eq!(BalanceSnapshot { before: 7, after: 6 }.settle(-1), Ok(-1));
}

#[test]
fn profit_beyond_the_range_of_amounts() {
    assert_eq!(
        BalanceSnapshot { before: 1, after: i128::MIN }.settle(0),
        Err(SoroswapError::InsufficientProfit)
    );
    assert_eq!(
        BalanceSnapshot { before: -1, after: i128::MAX }.settle(0),
        Err(SoroswapError::InvalidParams)
    );
    assert_eq!(BalanceSnapshot { before: 0, after: i128::MAX }.settle(0), Ok(i128::MAX));
}

#[test]
fn rejections_are_numbered() {
    assert_eq!(SoroswapError::InsufficientProfit.code(), 1);
    assert_eq!(SoroswapError::EmptyOrOversizedBatch.code(), 2);
    assert_eq!(SoroswapError::SubInvocationFailed.code(), 3);
    assert_eq!(SoroswapError::InsufficientRepaymentBalance.code(), 4);
    assert_eq!(SoroswapError::MissingAuthorization.code(), 5);
    assert_eq!(SoroswapError::InvalidParams.code(), 6);
    assert_eq!(SoroswapError::NegativeAmount.code(), 7);
    assert_eq!(SoroswapError::StaleOrMismatchedCallback.code(), 8);
}

#[test]
fn request_kinds_are_numbered() {
    assert_eq!(RequestType::Supply.code(), 0);
    assert_eq!(RequestType::Withdraw.code(), 1);
    assert_eq!(RequestType::SupplyCollateral.code(), 2);
    assert_eq!(RequestType::WithdrawCollateral.code(), 3);
    assert_eq!(RequestType::Borrow.code(), 4);
    assert_eq!(RequestType::Repay.code(), 5);
    assert_eq!(RequestType::FillUserLiquidationAuction.code(), 6);
    assert_eq!(RequestType::FillBadDebtAuction.code(), 7);
    assert_eq!(RequestType::FillInterestAuction.code(), 8);
    assert_eq!(RequestType::DeleteLiquidationAuction.code(), 9);
}

#[test]
fn repay_request_names_asset_and_amount() {
    let env = quiet_env();
    let asset = Address::generate(&env);
    let request = Request::repay(asset.clone(), 1000);
    assert_eq!(request.request_type, 5);
    assert_eq!(request.address, asset);
    assert_eq!(request.amount, 1000);
}

#[test]
fn rejections_are_ordered_by_number() {
    assert!(SoroswapError::InsufficientProfit < SoroswapError::EmptyOrOversizedBatch);
    assert!(SoroswapError::NegativeAmount < SoroswapError::StaleOrMismatchedCallback);
    let mut all = vec![
        SoroswapError::StaleOrMismatchedCallback,
        SoroswapError::InvalidParams,
        SoroswapError::InsufficientProfit,
        SoroswapError::NegativeAmount,
        SoroswapError::SubInvocationFailed,
        SoroswapError::MissingAuthorization,
        SoroswapError::EmptyOrOversizedBatch,
        SoroswapError::InsufficientRepaymentBalance,
    ];
    all.sort();
    let codes: std::vec::Vec<u32> = all.iter().map(|rejection| rejection.code()).collect();
    assert_eq!(codes, vec![1, 2, 3, 4, 5, 6, 7, 8]);
}

#[test]
fn pool_values_can_be_copied() {
    let env = quiet_env();
    let asset = Address::generate(&env);
    let request = Request::repay(asset.clone(), 1000);
    let copy = request.clone();
    assert_eq!(copy.request_type, 5);
    assert_eq!(copy.address, asset);
    assert_eq!(copy.amount, 1000);
}
