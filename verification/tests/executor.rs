use soroban_sdk::testutils::{Address as _, ContractFunctionSet, EnvTestConfig};
use soroban_sdk::xdr::{AccountId, PublicKey, ScAddress, Uint256};
use soroban_sdk::{Address, Env, Error, IntoVal, Symbol, TryFromVal, Val, Vec};
use soroswap_coordinators::calls::invoke;
use soroswap_coordinators::executor::{fail_fast_step, record_outcome, run_fail_fast, run_fail_soft};
use soroswap_coordinators::{PwndArbitrage, SoroswapError};

type Item = (Address, Symbol, Vec<Val>, bool);

/// A contract with no functions: the place the batches run from.
struct Bare;

impl ContractFunctionSet for Bare {
    fn call(&self, _func: &str, _env: Env, _args: &[Val]) -> Option<Val> {
        None
    }
}

/// `double` logs its argument and returns twice as much; `refuse` fails with
/// a contract error of its own; anything else is no function at all.
struct Target;

impl ContractFunctionSet for Target {
    fn call(&self, func: &str, env: Env, args: &[Val]) -> Option<Val> {
        match func {
            "double" => {
                let n = u32::try_from_val(&env, &args[0]).ok()?;
                let key = Symbol::new(&env, "log");
                let mut log: Vec<u32> =
                    env.storage().persistent().get(&key).unwrap_or(Vec::new(&env));
                log.push_back(n);
                env.storage().persistent().set(&key, &log);
                Some((2 * n).into_val(&env))
            }
            "refuse" => Some(Error::from_contract_error(77).to_val()),
            _ => None,
        }
    }
}

fn account(env: &Env) -> Address {
    let key = PublicKey::PublicKeyTypeEd25519(Uint256([7; 32]));
    Address::try_from_val(env, &ScAddress::Account(AccountId(key))).unwrap()
}

struct World {
    env: Env,
    runner: Address,
    target: Address,
}

fn world() -> World {
    let env = Env::new_with_config(EnvTestConfig { capture_snapshot_at_drop: false });
    let runner = env.register(Bare, ());
    let target = env.register(Target, ());
    World { env, runner, target }
}

impl World {
    fn doubles(&self, n: u32, tolerate: bool) -> Item {
        let arguments = Vec::from_array(&self.env, [n.into_val(&self.env)]);
        (self.target.clone(), Symbol::new(&self.env, "double"), arguments, tolerate)
    }

    fn refuses(&self, tolerate: bool) -> Item {
        (self.target.clone(), Symbol::new(&self.env, "refuse"), Vec::new(&self.env), tolerate)
    }

    fn missing(&self, tolerate: bool) -> Item {
        (self.target.clone(), Symbol::new(&self.env, "absent"), Vec::new(&self.env), tolerate)
    }

    fn run(&self, items: &[Item]) -> Result<Vec<Val>, SoroswapError> {
        let batch = Vec::from_slice(&self.env, items);
        let mut e = self.env.clone();
        self.env.as_contract(&self.runner, || PwndArbitrage::pwnd_exec(&mut e, batch))
    }

    fn run_strict(&self, items: &[Item]) -> Result<(), SoroswapError> {
        let plain: std::vec::Vec<(Address, Symbol, Vec<Val>)> =
            items.iter().map(|(t, f, a, _)| (t.clone(), f.clone(), a.clone())).collect();
        let batch = Vec::from_slice(&self.env, &plain);
        let mut e = self.env.clone();
        self.env.as_contract(&self.runner, || run_fail_fast(&mut e, &batch))
    }

    fn log(&self) -> std::vec::Vec<u32> {
        let found: Option<Vec<u32>> = self.env.as_contract(&self.target, || {
            self.env.storage().persistent().get(&Symbol::new(&self.env, "log"))
        });
        found.map(|log| log.iter().collect()).unwrap_or_default()
    }

    fn number(&self, value: Val) -> u32 {
        u32::try_from_val(&self.env, &value).unwrap()
    }

    fn error(&self, value: Val) -> Option<Error> {
        Error::try_from_val(&self.env, &value).ok()
    }
}

#[test]
fn scenario_tolerated_failure_in_the_middle() {
    let w = world();
    let results = w.run(&[w.doubles(1, false), w.refuses(true), w.doubles(3, false)]).unwrap();
    assert_eq!(results.len(), 3);
    assert_eq!(w.number(results.get(0).unwrap()), 2);
    assert_eq!(w.error(results.get(1).unwrap()), Some(Error::from_contract_error(77)));
    assert_eq!(w.number(results.get(2).unwrap()), 6);
    assert_eq!(w.log(), vec![1, 3]);
}

#[test]
fn empty_batch_gives_empty_list() {
    let w = world();
    let results = w.run(&[]).unwrap();
    assert_eq!(results.len(), 0);
    assert_eq!(w.run_strict(&[]), Ok(()));
    assert_eq!(w.log(), std::vec::Vec::<u32>::new());
}

#[test]
fn results_come_in_batch_order() {
    let w = world();
    let results = w.run(&[w.doubles(5, true), w.doubles(4, false), w.doubles(9, true)]).unwrap();
    assert_eq!(results.len(), 3);
    assert_eq!(w.number(results.get(0).unwrap()), 10);
    assert_eq!(w.number(results.get(1).unwrap()), 8);
    assert_eq!(w.number(results.get(2).unwrap()), 18);
    assert_eq!(w.log(), vec![5, 4, 9]);
}

#[test]
fn untolerated_failure_ends_the_batch() {
    let w = world();
    let outcome = w.run(&[w.doubles(1, true), w.refuses(false), w.doubles(3, true)]);
    assert_eq!(outcome, Err(SoroswapError::SubInvocationFailed));
    assert_eq!(w.log(), vec![1]);
}

#[test]
fn all_tolerant_batch_always_succeeds() {
    let w = world();
    let results = w.run(&[w.refuses(true), w.missing(true), w.refuses(true)]).unwrap();
    assert_eq!(results.len(), 3);
    assert_eq!(w.error(results.get(0).unwrap()), Some(Error::from_contract_error(77)));
    assert!(w.error(results.get(1).unwrap()).is_some());
    assert_eq!(w.error(results.get(2).unwrap()), Some(Error::from_contract_error(77)));
}

#[test]
fn call_to_a_missing_function_is_a_failure() {
    let w = world();
    assert_eq!(w.run(&[w.missing(false)]), Err(SoroswapError::SubInvocationFailed));
    assert_eq!(w.run_strict(&[w.missing(false)]), Err(SoroswapError::SubInvocationFailed));
}

#[test]
fn strict_batch_runs_in_order_and_stops_at_failure() {
    let w = world();
    assert_eq!(w.run_strict(&[w.doubles(2, false), w.doubles(1, false)]), Ok(()));
    assert_eq!(w.log(), vec![2, 1]);
    assert_eq!(
        w.run_strict(&[w.doubles(7, true), w.refuses(true), w.doubles(8, true)]),
        Err(SoroswapError::SubInvocationFailed)
    );
    assert_eq!(w.log(), vec![2, 1, 7]);
}

#[test]
fn unreadable_position_ends_the_batch() {
    let w = world();
    let readable = Vec::from_array(&w.env, [w.doubles(1, true)]);
    let mut raw: Vec<Val> = readable.to_vals();
    raw.push_back(17u32.into_val(&w.env));
    let batch: Vec<Item> = Vec::try_from_val(&w.env, &raw.to_val()).unwrap();
    assert_eq!(batch.len(), 2);
    let mut e = w.env.clone();
    let outcome = w.env.as_contract(&w.runner, || run_fail_soft(&mut e, &batch));
    assert_eq!(outcome, Err(SoroswapError::InvalidParams));
    assert_eq!(w.log(), vec![1]);

    let plain: Vec<(Address, Symbol, Vec<Val>)> = Vec::try_from_val(&w.env, &raw.to_val()).unwrap();
    let outcome = w.env.as_contract(&w.runner, || run_fail_fast(&mut e, &plain));
    assert_eq!(outcome, Err(SoroswapError::InvalidParams));
}

#[test]
fn strict_step_rejects_every_failure() {
    let w = world();
    let value: Val = 5u32.into_val(&w.env);
    assert_eq!(fail_fast_step(&Ok(value)), Ok(()));
    assert_eq!(fail_fast_step(&Err(value)), Err(SoroswapError::SubInvocationFailed));
}

#[test]
fn outcomes_are_recorded_by_their_flag() {
    let w = world();
    let mut results: Vec<Val> = Vec::new(&w.env);
    let five: Val = 5u32.into_val(&w.env);
    let six: Val = 6u32.into_val(&w.env);
    let seven: Val = 7u32.into_val(&w.env);
    assert_eq!(record_outcome(&mut results, false, Ok(five)), Ok(()));
    assert_eq!(record_outcome(&mut results, true, Err(six)), Ok(()));
    assert_eq!(
        record_outcome(&mut results, false, Err(seven)),
        Err(SoroswapError::SubInvocationFailed)
    );
    assert_eq!(record_outcome(&mut results, true, Ok(seven)), Ok(()));
    assert_eq!(results.len(), 3);
    assert_eq!(w.number(results.get(0).unwrap()), 5);
    assert_eq!(w.number(results.get(1).unwrap()), 6);
    assert_eq!(w.number(results.get(2).unwrap()), 7);
}

#[test]
fn invocation_is_made_only_on_a_contract() {
    let w = world();
    let mut e = w.env.clone();
    let entry = Symbol::new(&w.env, "double");
    let arguments = Vec::from_array(&w.env, [4u32.into_val(&w.env)]);
    let outcome = w
        .env
        .as_contract(&w.runner, || invoke(&mut e, &w.target, &entry, arguments.clone()));
    assert_eq!(w.number(outcome.unwrap().unwrap()), 8);
    let outcome = w
        .env
        .as_contract(&w.runner, || invoke(&mut e, &account(&w.env), &entry, arguments.clone()));
    assert!(outcome.is_none());
    let nowhere = Address::generate(&w.env);
    let outcome =
        w.env.as_contract(&w.runner, || invoke(&mut e, &nowhere, &entry, arguments.clone()));
    assert!(outcome.unwrap().is_err());
    assert_eq!(w.log(), vec![4]);
}

#[test]
fn account_in_a_batch_ends_the_run() {
    let w = world();
    let stray: Item =
        (account(&w.env), Symbol::new(&w.env, "double"), Vec::new(&w.env), true);
    assert_eq!(
        w.run(&[w.doubles(1, true), stray.clone(), w.doubles(3, true)]),
        Err(SoroswapError::InvalidParams)
    );
    assert_eq!(w.log(), vec![1]);
    assert_eq!(
        w.run_strict(&[stray.clone(), w.doubles(5, false)]),
        Err(SoroswapError::InvalidParams)
    );
    assert_eq!(w.run(&[stray]), Err(SoroswapError::InvalidParams));
    assert_eq!(w.log(), vec![1]);
}

#[test]
fn missing_contract_is_a_failure_like_any_other() {
    let w = world();
    let nowhere = Address::generate(&w.env);
    let lost = |tolerate: bool| -> Item {
        (nowhere.clone(), Symbol::new(&w.env, "double"), Vec::new(&w.env), tolerate)
    };
    let results = w.run(&[w.doubles(1, false), lost(true), w.doubles(3, false)]).unwrap();
    assert_eq!(results.len(), 3);
    assert!(w.error(results.get(1).unwrap()).is_some());
    assert_eq!(w.number(results.get(2).unwrap()), 6);
    assert_eq!(w.run(&[lost(false)]), Err(SoroswapError::SubInvocationFailed));
    assert_eq!(w.run_strict(&[lost(true)]), Err(SoroswapError::SubInvocationFailed));
}

#[test]
fn call_back_into_the_runner_is_a_failure() {
    let w = world();
    let own: Item = (w.runner.clone(), Symbol::new(&w.env, "double"), Vec::new(&w.env), true);
    let results = w.run(&[own.clone(), w.doubles(2, false)]).unwrap();
    assert_eq!(results.len(), 2);
    assert!(w.error(results.get(0).unwrap()).is_some());
    assert_eq!(w.number(results.get(1).unwrap()), 4);
    assert_eq!(w.run_strict(&[own]), Err(SoroswapError::SubInvocationFailed));
}

#[test]
fn batches_run_outside_a_contract_too() {
    let w = world();
    let batch = Vec::from_array(&w.env, [w.doubles(6, false)]);
    let mut e = w.env.clone();
    let results = run_fail_soft(&mut e, &batch).unwrap();
    assert_eq!(w.number(results.get(0).unwrap()), 12);
}
