//! What holds of every retry.
//!
//! Each law is stated of [`run`], the retry replayed against the scripted
//! outcomes of its attempts and delays, and of the result that such a run
//! [`delivers`]. A law holds whatever the settings and the scripts are,
//! within what its `requires` says.

use crate::machine::{Phase, Progress};
use crate::model::{
    all_elapse, all_fail, delivers, doubling_waits, lemma_run_after_failures, run, run_from,
    stalls, End,
};
use crate::schedule::{
    backoff_after, lemma_backoff_grows, lemma_backoff_start, lemma_backoff_step,
};
use crate::settings::Policy;
use vstd::arithmetic::power2::pow2;
use vstd::prelude::*;

verus! {

/// Every state that a retry reaches is well-formed: the start is, and every
/// step keeps it so. In particular the count never passes `total_retries`,
/// and when attempt number `n + 1` is made the backoff stands at the initial
/// one times `2^n`.
pub proof fn law_states_stay_well_formed(state: Progress, succeeded: bool, elapsed: bool)
    ensures
        Progress::start(state.policy).wf(),
        state.wf() && state.phase == Phase::Attempting ==> state.after_attempt(succeeded).wf(),
        state.wf() && state.phase == Phase::Waiting ==> state.after_delay(elapsed).wf(),
{
    lemma_backoff_start(state.policy.initial_backoff);
    lemma_backoff_step(state.policy.initial_backoff, state.attempt_count);
}

/// Under settings that fit, the backoff can be doubled whenever a delay has
/// elapsed: no retry runs into an overflow, however its attempts turn out.
pub proof fn law_fitting_schedule_never_overflows(state: Progress)
    requires
        state.policy.fits(),
        state.wf(),
        state.phase == Phase::Waiting,
    ensures
        state.can_double(),
{
    lemma_backoff_step(state.policy.initial_backoff, state.attempt_count);
    lemma_backoff_grows(
        state.policy.initial_backoff,
        state.attempt_count + 1,
        state.policy.total_retries,
    );
}

/// Under settings that fit, no retry stalls.
pub proof fn law_fitting_schedule_never_stalls<T, E, X>(
    policy: Policy,
    attempts: Seq<Result<T, E>>,
    delays: Seq<Result<(), X>>,
)
    requires
        policy.fits(),
    ensures
        !stalls(policy, attempts, delays),
{
    if attempts.len() <= policy.total_retries {
        policy.lemma_doubles_fewer(attempts.len(), policy.total_retries);
    }
}

/// From any state on, a retry invokes the operation at least once and at
/// most once more than retries are left, requests a delay after every
/// invocation but the last, or after the last as well where that delay is
/// the one that failed, and asks for each delay twice as long as for the one
/// before. Every attempt but the last fails and every delay between two
/// attempts elapses. The retry ends with the outcome of the last attempt,
/// which is a success or has used up the budget, or with the failure of the
/// delay after it.
pub proof fn lemma_rest_of_run<T, E, X>(
    state: Progress,
    attempts: Seq<Result<T, E>>,
    delays: Seq<Result<(), X>>,
)
    requires
        state.wf(),
    ensures
        ({
            let rest = run_from(state, attempts, delays);
            let left = state.policy.total_retries - state.attempt_count;
            let last = state.attempt_count + rest.invocations - 1;
            &&& 1 <= rest.invocations <= left + 1
            &&& rest.waits.len() <= left
            &&& rest.end is Settled ==> rest.waits.len() == rest.invocations - 1
            &&& rest.end is DelayFailed ==> rest.waits.len() == rest.invocations
            &&& forall|j: int|
                0 <= j < rest.waits.len() ==> #[trigger] rest.waits[j] == backoff_after(
                    state.policy.initial_backoff,
                    (state.attempt_count + j) as nat,
                )
            &&& forall|i: int| state.attempt_count <= i < last ==> (#[trigger] attempts[i]) is Err
            &&& forall|j: int| state.attempt_count <= j < last ==> (#[trigger] delays[j]) is Ok
            &&& match rest.end {
                End::Settled(outcome) => {
                    &&& outcome == attempts[last]
                    &&& outcome is Ok || rest.invocations == left + 1
                },
                End::DelayFailed(failure) => {
                    &&& attempts[last] is Err
                    &&& delays[last] == Err::<(), X>(failure)
                    &&& rest.invocations <= left
                },
            }
        }),
    decreases state.policy.total_retries - state.attempt_count,
{
    let result = attempts[state.attempt_count as int];
    if !state.settles(result is Ok) && delays[state.attempt_count as int] is Ok {
        let next = state.after_attempt(false).after_delay(true);
        lemma_backoff_step(state.policy.initial_backoff, state.attempt_count);
        lemma_rest_of_run(next, attempts, delays);
        let rest = run_from(state, attempts, delays);
        let tail = run_from(next, attempts, delays);
        assert forall|j: int| 0 <= j < rest.waits.len() implies #[trigger] rest.waits[j]
            == backoff_after(state.policy.initial_backoff, (state.attempt_count + j) as nat) by {
            if j > 0 {
                assert(rest.waits[j] == tail.waits[j - 1]);
            }
        }
    }
}

/// The operation is invoked at least once and at most `total_retries + 1`
/// times, and at most `total_retries` delays are requested. A retry that ends
/// with an attempt has waited once less than it has invoked; one that ends
/// with a failed delay has waited as often as it has invoked.
pub proof fn law_attempts_are_bounded<T, E, X>(
    policy: Policy,
    attempts: Seq<Result<T, E>>,
    delays: Seq<Result<(), X>>,
)
    ensures
        ({
            let run = run(policy, attempts, delays);
            &&& 1 <= run.invocations <= policy.total_retries + 1
            &&& run.waits.len() <= policy.total_retries
            &&& run.end is Settled ==> run.waits.len() == run.invocations - 1
            &&& run.end is DelayFailed ==> run.waits.len() == run.invocations
        }),
{
    lemma_backoff_start(policy.initial_backoff);
    lemma_rest_of_run(Progress::start(policy), attempts, delays);
}

/// A retry ends with what came last. Every attempt before the last one
/// failed, and every delay between two attempts elapsed. If the retry ends
/// with an attempt, that is the last one, and it succeeded or was attempt
/// number `total_retries + 1`. If it ends with a failed delay, that is the
/// delay after the last attempt, which failed with a retry still left.
pub proof fn law_end_comes_last<T, E, X>(
    policy: Policy,
    attempts: Seq<Result<T, E>>,
    delays: Seq<Result<(), X>>,
)
    ensures
        ({
            let run = run(policy, attempts, delays);
            let last = run.invocations - 1;
            &&& forall|i: int| 0 <= i < last ==> (#[trigger] attempts[i]) is Err
            &&& forall|j: int| 0 <= j < last ==> (#[trigger] delays[j]) is Ok
            &&& match run.end {
                End::Settled(outcome) => {
                    &&& outcome == attempts[last]
                    &&& outcome is Ok || last == policy.total_retries
                },
                End::DelayFailed(failure) => {
                    &&& attempts[last] is Err
                    &&& delays[last] == Err::<(), X>(failure)
                    &&& last < policy.total_retries
                },
            }
        }),
{
    lemma_backoff_start(policy.initial_backoff);
    lemma_rest_of_run(Progress::start(policy), attempts, delays);
}

/// The delays that a retry requests are the initial backoff `d`, then `2d`,
/// `4d` and so on: delay number `j + 1` is `d * 2^j`, however many delays
/// there are and however they and the attempts turn out.
pub proof fn law_delays_double<T, E, X>(
    policy: Policy,
    attempts: Seq<Result<T, E>>,
    delays: Seq<Result<(), X>>,
)
    ensures
        ({
            let run = run(policy, attempts, delays);
            &&& run.waits == doubling_waits(policy, run.waits.len())
            &&& forall|j: int|
                0 <= j < run.waits.len() ==> #[trigger] run.waits[j] == policy.initial_backoff
                    * pow2(j as nat)
            &&& forall|j: int|
                0 <= j < run.waits.len() ==> #[trigger] run.waits[j]
                    == policy.backoff_before_retry((j + 1) as nat)
        }),
{
    lemma_backoff_start(policy.initial_backoff);
    lemma_rest_of_run(Progress::start(policy), attempts, delays);
    let run = run(policy, attempts, delays);
    assert(run.waits =~= doubling_waits(policy, run.waits.len()));
}

/// An operation that fails every time, with no delay failing, is invoked
/// exactly `total_retries + 1` times, with a delay between any two
/// invocations, and what is returned is the error of the last invocation.
pub proof fn law_persistent_failure<T, E: From<X>, X>(
    policy: Policy,
    attempts: Seq<Result<T, E>>,
    delays: Seq<Result<(), X>>,
)
    requires
        all_fail(attempts, policy.total_retries + 1),
        all_elapse(delays, policy.total_retries),
    ensures
        ({
            let run = run(policy, attempts, delays);
            let last = attempts[policy.total_retries as int];
            &&& run.invocations == policy.total_retries + 1
            &&& run.waits == doubling_waits(policy, policy.total_retries)
            &&& run.end == End::<T, E, X>::Settled(last)
            &&& last is Err
            &&& forall|result: Result<T, E>| #[trigger]
                delivers(run.end, result) <==> result == last
        }),
{
    lemma_run_after_failures(policy, attempts, delays, policy.total_retries);
    let run = run(policy, attempts, delays);
    assert(attempts[policy.total_retries as int] is Err);
    assert(run.waits =~= doubling_waits(policy, policy.total_retries));
}

/// An operation that succeeds when it is first invoked is invoked exactly
/// once, no delay is requested, and what is returned is that success. This
/// holds for all settings.
pub proof fn law_immediate_success<T, E: From<X>, X>(
    policy: Policy,
    attempts: Seq<Result<T, E>>,
    delays: Seq<Result<(), X>>,
)
    requires
        attempts[0] is Ok,
    ensures
        ({
            let run = run(policy, attempts, delays);
            &&& run.invocations == 1
            &&& run.waits.len() == 0
            &&& run.end == End::<T, E, X>::Settled(attempts[0])
            &&& forall|result: Result<T, E>| #[trigger]
                delivers(run.end, result) <==> result == attempts[0]
        }),
{
}

/// An operation that fails `failures` times and then succeeds, where
/// `failures` is within the budget and no delay fails, is invoked exactly
/// `failures + 1` times, exactly `failures` delays are requested, and what is
/// returned is the success.
pub proof fn law_success_after_failures<T, E: From<X>, X>(
    policy: Policy,
    attempts: Seq<Result<T, E>>,
    delays: Seq<Result<(), X>>,
    failures: nat,
)
    requires
        failures <= policy.total_retries,
        all_fail(attempts, failures),
        attempts[failures as int] is Ok,
        all_elapse(delays, failures),
    ensures
        ({
            let run = run(policy, attempts, delays);
            let success = attempts[failures as int];
            &&& run.invocations == failures + 1
            &&& run.waits.len() == failures
            &&& run.waits == doubling_waits(policy, failures)
            &&& run.end == End::<T, E, X>::Settled(success)
            &&& forall|result: Result<T, E>| #[trigger]
                delivers(run.end, result) <==> result == success
        }),
{
    lemma_run_after_failures(policy, attempts, delays, failures);
    let run = run(policy, attempts, delays);
    assert(run.waits =~= doubling_waits(policy, failures));
}

/// When delay number `nth` is requested and fails, the retry stops there:
/// the operation has been invoked `nth` times and is not invoked again,
/// whatever is left of the budget, no further delay is requested, and what is
/// returned is an error that the failure of that delay was converted into.
pub proof fn law_delay_failure_is_final<T, E: From<X>, X>(
    policy: Policy,
    attempts: Seq<Result<T, E>>,
    delays: Seq<Result<(), X>>,
    nth: nat,
)
    requires
        1 <= nth <= run(policy, attempts, delays).waits.len(),
        delays[nth - 1] is Err,
    ensures
        ({
            let run = run(policy, attempts, delays);
            let failure = delays[nth - 1]->Err_0;
            &&& run.invocations == nth
            &&& run.waits.len() == nth
            &&& run.waits == doubling_waits(policy, nth)
            &&& run.end == End::<T, E, X>::DelayFailed(failure)
            &&& forall|result: Result<T, E>| #[trigger]
                delivers(run.end, result) <==> (result matches Err(error) && call_ensures(
                    E::from,
                    (failure,),
                    error,
                ))
        }),
{
    law_attempts_are_bounded(policy, attempts, delays);
    law_end_comes_last(policy, attempts, delays);
    law_delays_double(policy, attempts, delays);
}

} // verus!
