//! Running a batch of invocations, in order, under one of two failure
//! policies: stop at the first failure, or keep the failures that the caller
//! tolerates as values and go on.

use vstd::prelude::*;
use soroban_sdk::{Env, Val};
use soroban_sdk::Vec as HostVec;
use crate::calls::invoke;
use crate::error::SoroswapError;
use crate::host::{
    self, batch_slots, in_contract, is_contract, tolerant_slots, value_items, Invocation,
    TolerantInvocation,
};

verus! {

/// What a finished invocation leaves for the result list: the value it
/// returned, or the error value it failed with.
pub open spec fn outcome_value(outcome: Result<Val, Val>) -> Val {
    match outcome {
        Ok(value) => value,
        Err(error) => error,
    }
}

/// The values that a run keeps of these outcomes: one for each, in order.
pub open spec fn kept_values(outcomes: Seq<Result<Val, Val>>) -> Seq<Val> {
    Seq::new(outcomes.len(), |i: int| outcome_value(outcomes[i]))
}

/// Whether a batch goes on after an invocation with this outcome.
pub open spec fn goes_on(tolerate_failure: bool, outcome: Result<Val, Val>) -> bool {
    outcome is Ok || tolerate_failure
}

/// A position that can be run: it reads as an invocation, and of a contract.
pub open spec fn runnable(slot: Option<Invocation>) -> bool {
    slot is Some && is_contract(slot.unwrap().0)
}

/// A position with a flag that can be run.
pub open spec fn tolerant_runnable(slot: Option<TolerantInvocation>) -> bool {
    slot is Some && is_contract(slot.unwrap().0)
}

/// Whether the invocation at the position tolerates its own failure.
pub open spec fn tolerates(slot: Option<TolerantInvocation>) -> bool {
    slot is Some && slot.unwrap().3
}

/// Every position of the batch can be run, and tolerates its own failure.
pub open spec fn all_tolerant(slots: Seq<Option<TolerantInvocation>>) -> bool {
    forall|i: int|
        0 <= i < slots.len() ==> tolerant_runnable(#[trigger] slots[i]) && tolerates(slots[i])
}

/// A run that stops at the first failure, told by what its invocations came
/// to. `outcomes` holds the outcome of each invocation made, in the order of
/// the batch, from the first position on. Every invocation but the last
/// returned. The run succeeds where the whole batch was run and the last
/// returned too; it fails on the last invocation where that one failed; and
/// it fails on the position after the last where that one cannot be run.
pub open spec fn fail_fast_run(
    slots: Seq<Option<Invocation>>,
    outcomes: Seq<Result<Val, Val>>,
    verdict: Result<(), SoroswapError>,
) -> bool {
    let made = outcomes.len() as int;
    &&& made <= slots.len()
    &&& forall|i: int| 0 <= i < made ==> runnable(#[trigger] slots[i])
    &&& forall|i: int| 0 <= i < made - 1 ==> (#[trigger] outcomes[i]) is Ok
    &&& match verdict {
        Ok(()) => made == slots.len() && (made > 0 ==> outcomes[made - 1] is Ok),
        Err(rejection) => {
            ||| rejection == SoroswapError::SubInvocationFailed && made > 0 && outcomes[made
                - 1] is Err
            ||| rejection == SoroswapError::InvalidParams && made < slots.len() && !runnable(
                slots[made],
            ) && (made > 0 ==> outcomes[made - 1] is Ok)
        },
    }
}

/// A run that keeps tolerated failures, told by what its invocations came
/// to. `outcomes` holds the outcome of each invocation made, in the order of
/// the batch, from the first position on. After every invocation but the
/// last the batch went on. The run succeeds where the whole batch was run
/// and went on after the last too, and its list then holds the value of each
/// outcome at the outcome's own position; it fails on the last invocation
/// where that one failed untolerated; and it fails on the position after the
/// last where that one cannot be run.
pub open spec fn fail_soft_run(
    slots: Seq<Option<TolerantInvocation>>,
    outcomes: Seq<Result<Val, Val>>,
    results: Result<Seq<Val>, SoroswapError>,
) -> bool {
    let made = outcomes.len() as int;
    &&& made <= slots.len()
    &&& forall|i: int| 0 <= i < made ==> tolerant_runnable(#[trigger] slots[i])
    &&& forall|i: int| 0 <= i < made - 1 ==> goes_on(tolerates(slots[i]), #[trigger] outcomes[i])
    &&& match results {
        Ok(values) => {
            &&& made == slots.len()
            &&& made > 0 ==> goes_on(tolerates(slots[made - 1]), outcomes[made - 1])
            &&& values == kept_values(outcomes)
        },
        Err(rejection) => {
            ||| rejection == SoroswapError::SubInvocationFailed && made > 0 && !goes_on(
                tolerates(slots[made - 1]),
                outcomes[made - 1],
            )
            ||| rejection == SoroswapError::InvalidParams && made < slots.len()
                && !tolerant_runnable(slots[made]) && (made > 0 ==> goes_on(
                tolerates(slots[made - 1]),
                outcomes[made - 1],
            ))
        },
    }
}

/// How a run that stops at the first failure can end on these positions.
pub open spec fn fail_fast_ending(
    slots: Seq<Option<Invocation>>,
    verdict: Result<(), SoroswapError>,
) -> bool {
    exists|outcomes: Seq<Result<Val, Val>>| #[trigger] fail_fast_run(slots, outcomes, verdict)
}

/// How a run that keeps tolerated failures can end on these positions.
pub open spec fn fail_soft_ending(
    slots: Seq<Option<TolerantInvocation>>,
    results: Result<Seq<Val>, SoroswapError>,
) -> bool {
    exists|outcomes: Seq<Result<Val, Val>>| #[trigger] fail_soft_run(slots, outcomes, results)
}

/// The result of a run with the values of its list spelled out.
pub open spec fn listed(results: Result<HostVec<Val>, SoroswapError>) -> Result<
    Seq<Val>,
    SoroswapError,
> {
    match results {
        Ok(values) => Ok(value_items(values)),
        Err(rejection) => Err(rejection),
    }
}

/// The verdict on one invocation where the first failure ends the batch.
pub fn fail_fast_step(outcome: &Result<Val, Val>) -> (verdict: Result<(), SoroswapError>)
    ensures
        verdict == (if *outcome is Ok {
            Ok::<(), SoroswapError>(())
        } else {
            Err::<(), SoroswapError>(SoroswapError::SubInvocationFailed)
        }),
{
    match outcome {
        Ok(_) => Ok(()),
        Err(_) => Err(SoroswapError::SubInvocationFailed),
    }
}

/// Enters the outcome of one invocation into the result list. A returned
/// value is kept; so is the error value of a tolerated failure. A failure
/// that is not tolerated leaves the list as it is and ends the batch.
pub fn record_outcome(results: &mut HostVec<Val>, tolerate_failure: bool, outcome: Result<
    Val,
    Val,
>) -> (verdict: Result<(), SoroswapError>)
    ensures
        goes_on(tolerate_failure, outcome) ==> verdict is Ok && value_items(*final(results))
            == value_items(*old(results)).push(outcome_value(outcome)),
        !goes_on(tolerate_failure, outcome) ==> verdict == Err::<(), SoroswapError>(
            SoroswapError::SubInvocationFailed,
        ) && *final(results) == *old(results),
{
    match outcome {
        Ok(value) => {
            host::values_push(results, value);
            Ok(())
        },
        Err(error) => {
            if tolerate_failure {
                host::values_push(results, error);
                Ok(())
            } else {
                Err(SoroswapError::SubInvocationFailed)
            }
        },
    }
}

/// Runs the batch in order and stops at the first failure. No result list
/// comes back: the answer is only whether every invocation went through.
///
/// An empty batch succeeds without a single call. A position that cannot be
/// run, because it does not read as an invocation or names no contract, ends
/// the run with [`SoroswapError::InvalidParams`], a failed invocation with
/// [`SoroswapError::SubInvocationFailed`]; nothing after it is called.
pub fn run_fail_fast(e: &mut Env, batch: &HostVec<Invocation>) -> (verdict: Result<
    (),
    SoroswapError,
>)
    ensures
        fail_fast_ending(batch_slots(*batch), verdict),
        batch_slots(*batch).len() == 0 ==> *final(e) == *old(e),
        batch_slots(*batch).len() > 0 && !runnable(batch_slots(*batch)[0]) ==> verdict == Err::<
            (),
            SoroswapError,
        >(SoroswapError::InvalidParams) && *final(e) == *old(e),
        in_contract(*final(e)) == in_contract(*old(e)),
{
    let len: u32 = host::batch_len(batch);
    let ghost slots = batch_slots(*batch);
    let ghost mut outcomes: Seq<Result<Val, Val>> = Seq::empty();
    let mut i: u32 = 0;
    while i < len
        invariant
            slots == batch_slots(*batch),
            len == slots.len(),
            i <= len,
            outcomes.len() == i,
            i == 0 ==> *e == *old(e),
            in_contract(*e) == in_contract(*old(e)),
            forall|k: int| 0 <= k < i ==> runnable(#[trigger] slots[k]),
            forall|k: int| 0 <= k < i ==> (#[trigger] outcomes[k]) is Ok,
        decreases len - i,
    {
        let called = match host::batch_item(batch, i) {
            None => None,
            Some((target, entry, arguments)) => invoke(e, &target, &entry, arguments),
        };
        match called {
            None => {
                assert(fail_fast_run(slots, outcomes, Err(SoroswapError::InvalidParams)));
                return Err(SoroswapError::InvalidParams);
            },
            Some(outcome) => {
                proof {
                    outcomes = outcomes.push(outcome);
                }
                match fail_fast_step(&outcome) {
                    Err(rejection) => {
                        assert(fail_fast_run(slots, outcomes, Err(rejection)));
                        return Err(rejection);
                    },
                    Ok(()) => {},
                }
            },
        }
        i += 1;
    }
    assert(fail_fast_run(slots, outcomes, Ok(())));
    Ok(())
}

/// Runs the batch in order, keeping for each invocation the value it
/// returned, or the error value of a failure that its flag tolerates.
///
/// On success the list has one value for each invocation, each at its own
/// position. A batch whose positions can all be run and all tolerate failure
/// always succeeds. A failure that is not tolerated ends the run with
/// [`SoroswapError::SubInvocationFailed`], a position that cannot be run,
/// because it does not read as an invocation or names no contract, with
/// [`SoroswapError::InvalidParams`]; no list comes back then.
pub fn run_fail_soft(e: &mut Env, batch: &HostVec<TolerantInvocation>) -> (results: Result<
    HostVec<Val>,
    SoroswapError,
>)
    ensures
        fail_soft_ending(tolerant_slots(*batch), listed(results)),
        all_tolerant(tolerant_slots(*batch)) ==> results is Ok,
        tolerant_slots(*batch).len() == 0 ==> *final(e) == *old(e),
        tolerant_slots(*batch).len() > 0 && !tolerant_runnable(tolerant_slots(*batch)[0])
            ==> listed(results) == Err::<Seq<Val>, SoroswapError>(SoroswapError::InvalidParams)
            && *final(e) == *old(e),
        in_contract(*final(e)) == in_contract(*old(e)),
{
    let len: u32 = host::tolerant_len(batch);
    let ghost slots = tolerant_slots(*batch);
    let ghost mut outcomes: Seq<Result<Val, Val>> = Seq::empty();
    let mut results = host::values_new(e);
    let mut i: u32 = 0;
    while i < len
        invariant
            slots == tolerant_slots(*batch),
            len == slots.len(),
            i <= len,
            outcomes.len() == i,
            i == 0 ==> *e == *old(e),
            in_contract(*e) == in_contract(*old(e)),
            value_items(results) == kept_values(outcomes),
            forall|k: int| 0 <= k < i ==> tolerant_runnable(#[trigger] slots[k]),
            forall|k: int| 0 <= k < i ==> goes_on(tolerates(slots[k]), #[trigger] outcomes[k]),
        decreases len - i,
    {
        let called = match host::tolerant_item(batch, i) {
            None => None,
            Some((target, entry, arguments, tolerate_failure)) => {
                match invoke(e, &target, &entry, arguments) {
                    None => None,
                    Some(outcome) => Some((tolerate_failure, outcome)),
                }
            },
        };
        match called {
            None => {
                assert(fail_soft_run(slots, outcomes, Err(SoroswapError::InvalidParams)));
                return Err(SoroswapError::InvalidParams);
            },
            Some((tolerate_failure, outcome)) => {
                let ghost before = outcomes;
                proof {
                    outcomes = outcomes.push(outcome);
                }
                match record_outcome(&mut results, tolerate_failure, outcome) {
                    Err(rejection) => {
                        assert(fail_soft_run(slots, outcomes, Err(rejection)));
                        return Err(rejection);
                    },
                    Ok(()) => {
                        assert(kept_values(before).push(outcome_value(outcome)) =~= kept_values(
                            outcomes,
                        ));
                    },
                }
            },
        }
        i += 1;
    }
    assert(fail_soft_run(slots, outcomes, Ok(value_items(results))));
    Ok(results)
}

/// An empty batch succeeds under either policy, with an empty list where
/// there is one.
pub proof fn lemma_empty_batch_succeeds(
    verdict: Result<(), SoroswapError>,
    results: Result<Seq<Val>, SoroswapError>,
)
    ensures
        fail_fast_ending(Seq::empty(), verdict) ==> verdict is Ok,
        fail_soft_ending(Seq::empty(), results) ==> results == Ok::<Seq<Val>, SoroswapError>(
            Seq::empty(),
        ),
{
    if fail_soft_ending(Seq::empty(), results) {
        let outcomes = choose|outcomes: Seq<Result<Val, Val>>|
            fail_soft_run(Seq::empty(), outcomes, results);
        assert(results.unwrap() =~= Seq::<Val>::empty());
    }
}

/// Where every invocation of a batch was made and none failed untolerated,
/// the run that keeps tolerated failures succeeds, and its list holds, at
/// each position, what the invocation there returned or the error value it
/// failed with: a tolerated failure takes its place among the successes and
/// the invocations after it are still made.
pub proof fn lemma_tolerated_failures_are_kept(
    slots: Seq<Option<TolerantInvocation>>,
    outcomes: Seq<Result<Val, Val>>,
    results: Result<Seq<Val>, SoroswapError>,
)
    requires
        fail_soft_run(slots, outcomes, results),
        outcomes.len() == slots.len(),
        forall|i: int|
            0 <= i < slots.len() ==> goes_on(tolerates(slots[i]), #[trigger] outcomes[i]),
    ensures
        results is Ok,
        results.unwrap().len() == slots.len(),
        forall|i: int|
            0 <= i < slots.len() ==> #[trigger] results.unwrap()[i] == outcome_value(outcomes[i]),
{
}

/// A run that stops at the first failure succeeds only where every
/// invocation of the batch was made and returned, and a failed invocation is
/// never passed over: the run ends on it.
pub proof fn lemma_first_failure_ends_the_run(
    slots: Seq<Option<Invocation>>,
    outcomes: Seq<Result<Val, Val>>,
    verdict: Result<(), SoroswapError>,
)
    requires
        fail_fast_run(slots, outcomes, verdict),
    ensures
        verdict is Ok <==> outcomes.len() == slots.len() && forall|i: int|
            0 <= i < outcomes.len() ==> (#[trigger] outcomes[i]) is Ok,
        forall|i: int|
            0 <= i < outcomes.len() && (#[trigger] outcomes[i]) is Err ==> i == outcomes.len() - 1
                && verdict == Err::<(), SoroswapError>(SoroswapError::SubInvocationFailed),
{
}

} // verus!
