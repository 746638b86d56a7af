//! The retry loop.
//!
//! [`retry`] drives the state machine of [`crate::machine`] with an operation
//! and a delay that the caller supplies. It invokes the operation, and for as
//! long as the operation fails and retries are left it waits for the current
//! backoff and invokes the operation again. [`checked_retry`] is the same
//! loop for settings under which the backoff may outgrow a `Duration`.

use crate::laws::{
    law_attempts_are_bounded, law_delays_double, law_end_comes_last,
    law_fitting_schedule_never_stalls,
};
use crate::machine::{Action, RetryState};
use crate::model::{
    all_elapse, all_fail, delivers, lemma_run_after_failures, reached, run, stalls,
};
use crate::schedule::{backoff_after, lemma_backoff_step};
use crate::settings::{BackoffSettings, Policy};
use crate::time::duration_nanos;
use std::time::Duration;
use vstd::arithmetic::power2::pow2;
use vstd::prelude::*;

verus! {

/// Whether a retry under `policy` can have seen what the scripts hold: each
/// of `attempts` is an outcome that `op` can return, delay number `j + 1` was
/// requested for `waited[j]`, which is the initial backoff doubled `j` times,
/// and `delays[j]` is an outcome that `delay` can return for it.
pub open spec fn observed<F, D, T, E, X>(
    op: F,
    delay: D,
    policy: Policy,
    attempts: Seq<Result<T, E>>,
    waited: Seq<Duration>,
    delays: Seq<Result<(), X>>,
) -> bool where F: Fn() -> Result<T, E>, D: Fn(Duration) -> Result<(), X> {
    &&& forall|i: int| 0 <= i < attempts.len() ==> op.ensures((), #[trigger] attempts[i])
    &&& waited.len() == delays.len()
    &&& forall|j: int|
        0 <= j < waited.len() ==> duration_nanos(#[trigger] waited[j]) == backoff_after(
            policy.initial_backoff,
            j as nat,
        )
    &&& forall|j: int| 0 <= j < delays.len() ==> delay.ensures((waited[j],), #[trigger] delays[j])
}

/// Whether `result` is accounted for by a retry under `policy` in which the
/// operation was invoked `attempts.len()` times and returned `attempts`, and
/// the delay was invoked on the durations `waited` and returned `delays`.
///
/// It is if the retry can have seen those outcomes, if replayed against them
/// it invokes and waits just as often, and if it ends with what delivers
/// `result`.
pub open spec fn accounts_for<F, D, T, E, X>(
    op: F,
    delay: D,
    policy: Policy,
    attempts: Seq<Result<T, E>>,
    waited: Seq<Duration>,
    delays: Seq<Result<(), X>>,
    result: Result<T, E>,
) -> bool where F: Fn() -> Result<T, E>, D: Fn(Duration) -> Result<(), X>, E: From<X> {
    let run = run(policy, attempts, delays);
    &&& observed(op, delay, policy, attempts, waited, delays)
    &&& attempts.len() == run.invocations
    &&& delays.len() == run.waits.len()
    &&& delivers(run.end, result)
}

/// Whether `outcome` is accounted for by a retry that has to find out on the
/// way whether its backoff can be doubled.
///
/// `Some(result)` is if the scripts account for `result` and the backoff
/// could be doubled after each delay that elapsed. `None` is if the retry
/// stalled: it saw nothing but failed attempts and elapsed delays, and after
/// the last of them the backoff could not be doubled.
pub open spec fn accounts_for_checked<F, D, T, E, X>(
    op: F,
    delay: D,
    policy: Policy,
    attempts: Seq<Result<T, E>>,
    waited: Seq<Duration>,
    delays: Seq<Result<(), X>>,
    outcome: Option<Result<T, E>>,
) -> bool where F: Fn() -> Result<T, E>, D: Fn(Duration) -> Result<(), X>, E: From<X> {
    match outcome {
        Some(result) => {
            &&& accounts_for(op, delay, policy, attempts, waited, delays, result)
            &&& policy.doubles(run(policy, attempts, delays).elapsed())
        },
        None => {
            &&& observed(op, delay, policy, attempts, waited, delays)
            &&& stalls(policy, attempts, delays)
        },
    }
}

/// What [`accounts_for`] comes to, in plain terms.
///
/// The operation was invoked at least once and at most `total_retries + 1`
/// times. Every attempt but the last failed and was followed by a delay that
/// elapsed. Delay number `j + 1` was requested for `d * 2^j`, where `d` is
/// the initial backoff. Then one of two things happened. Either the last
/// attempt was followed by no delay: then it succeeded or was attempt number
/// `total_retries + 1`, and its outcome is the result. Or the last attempt
/// failed with a retry left and the delay after it failed: then the result is
/// an error that the failure of that delay was converted into.
pub proof fn law_retry_in_plain_terms<F, D, T, E, X>(
    op: F,
    delay: D,
    policy: Policy,
    attempts: Seq<Result<T, E>>,
    waited: Seq<Duration>,
    delays: Seq<Result<(), X>>,
    result: Result<T, E>,
) where F: Fn() -> Result<T, E>, D: Fn(Duration) -> Result<(), X>, E: From<X>
    requires
        accounts_for(op, delay, policy, attempts, waited, delays, result),
    ensures
        1 <= attempts.len() <= policy.total_retries + 1,
        forall|i: int| 0 <= i < attempts.len() - 1 ==> (#[trigger] attempts[i]) is Err,
        forall|j: int| 0 <= j < attempts.len() - 1 ==> (#[trigger] delays[j]) is Ok,
        waited.len() == delays.len(),
        forall|j: int|
            0 <= j < waited.len() ==> duration_nanos(#[trigger] waited[j]) == policy.initial_backoff
                * pow2(j as nat),
        delays.len() == attempts.len() - 1 || delays.len() == attempts.len(),
        delays.len() == attempts.len() - 1 ==> {
            &&& result == attempts.last()
            &&& result is Ok || attempts.len() == policy.total_retries + 1
        },
        delays.len() == attempts.len() ==> {
            &&& attempts.len() <= policy.total_retries
            &&& attempts.last() is Err
            &&& delays.last() matches Err(failure) && result matches Err(error) && call_ensures(
                E::from,
                (failure,),
                error,
            )
        },
{
    law_attempts_are_bounded(policy, attempts, delays);
    law_end_comes_last(policy, attempts, delays);
    law_delays_double(policy, attempts, delays);
}

/// Retries as [`retry`] does, under any settings.
///
/// Nothing caps the backoff, so it may outgrow what a `Duration` can hold. If
/// a delay has elapsed and the backoff cannot be doubled, because twice as
/// long is longer than `Duration::MAX`, the retry gives up and returns
/// `None`. Up to there, and in every other case, it does what [`retry`] does
/// and returns its result in `Some`.
///
/// The delay has to accept every duration that the schedule holds.
pub fn checked_retry<F, D, T, E, X>(op: F, delay: D, settings: BackoffSettings) -> (outcome: Option<
    Result<T, E>,
>) where F: Fn() -> Result<T, E>, D: Fn(Duration) -> Result<(), X>, E: From<X>
    requires
        op.requires(()),
        forall|backoff: Duration|
            settings@.requests(duration_nanos(backoff)) ==> #[trigger] delay.requires((backoff,)),
    ensures
        exists|attempts: Seq<Result<T, E>>, waited: Seq<Duration>, delays: Seq<Result<(), X>>|
            accounts_for_checked(op, delay, settings@, attempts, waited, delays, outcome),
{
    let ghost policy = settings@;
    let ghost mut attempts: Seq<Result<T, E>> = Seq::empty();
    let ghost mut waited: Seq<Duration> = Seq::empty();
    let ghost mut delays: Seq<Result<(), X>> = Seq::empty();
    let mut state = RetryState::new(settings);
    loop
        invariant
            op.requires(()),
            forall|backoff: Duration|
                policy.requests(duration_nanos(backoff)) ==> #[trigger] delay.requires((backoff,)),
            policy == settings@,
            state@.wf(),
            state@ == reached(policy, state@.attempt_count),
            policy.doubles(state@.attempt_count),
            attempts.len() == state@.attempt_count,
            all_fail(attempts, state@.attempt_count),
            delays.len() == state@.attempt_count,
            all_elapse(delays, state@.attempt_count),
            observed(op, delay, policy, attempts, waited, delays),
        decreases policy.total_retries - state@.attempt_count,
    {
        let ghost failures = state@.attempt_count;
        let result = op();
        proof {
            attempts = attempts.push(result);
        }
        match state.on_attempt(result) {
            Action::Return(result) => {
                proof {
                    lemma_run_after_failures(policy, attempts, delays, failures);
                    assert(accounts_for_checked(
                        op,
                        delay,
                        policy,
                        attempts,
                        waited,
                        delays,
                        Some(result),
                    ));
                }
                return Some(result);
            },
            Action::Wait(backoff) => {
                proof {
                    assert(duration_nanos(backoff) == policy.backoff_before_retry(failures + 1));
                    lemma_backoff_step(policy.initial_backoff, failures);
                }
                let elapsed = delay(backoff);
                proof {
                    waited = waited.push(backoff);
                    delays = delays.push(elapsed);
                }
                match state.checked_on_delay::<E, X>(elapsed) {
                    Some(Ok(_)) => {},
                    Some(Err(error)) => {
                        proof {
                            lemma_run_after_failures(policy, attempts, delays, failures);
                            assert(accounts_for_checked(
                                op,
                                delay,
                                policy,
                                attempts,
                                waited,
                                delays,
                                Some(Err(error)),
                            ));
                        }
                        return Some(Err(error));
                    },
                    None => {
                        proof {
                            assert(accounts_for_checked(
                                op,
                                delay,
                                policy,
                                attempts,
                                waited,
                                delays,
                                None,
                            ));
                        }
                        return None;
                    },
                }
            },
        }
    }
}

/// Invokes `op` until it succeeds or `settings.total_retries` retries have
/// failed too, waiting with `delay` before each retry: for the initial
/// backoff before the first, and twice as long each time after that. The
/// first attempt is never delayed.
///
/// Returns the first success. If every attempt fails, returns the error of
/// the last attempt; the errors before it are dropped. If a delay fails, the
/// retry stops at once and returns that failure, converted into `E`.
///
/// The settings have to fit (see [`BackoffSettings::schedule_fits`]), so that
/// the backoff can be doubled whenever a delay has elapsed, and the delay has
/// to accept every duration that the schedule holds. For settings that may
/// not fit there is [`checked_retry`].
pub fn retry<F, D, T, E, X>(op: F, delay: D, settings: BackoffSettings) -> (result: Result<
    T,
    E,
>) where F: Fn() -> Result<T, E>, D: Fn(Duration) -> Result<(), X>, E: From<X>
    requires
        op.requires(()),
        forall|backoff: Duration|
            settings@.requests(duration_nanos(backoff)) ==> #[trigger] delay.requires((backoff,)),
        settings@.fits(),
    ensures
        exists|attempts: Seq<Result<T, E>>, waited: Seq<Duration>, delays: Seq<Result<(), X>>|
            accounts_for(op, delay, settings@, attempts, waited, delays, result),
{
    let outcome = checked_retry(op, delay, settings);
    proof {
        let (attempts, waited, delays) = choose|
            attempts: Seq<Result<T, E>>,
            waited: Seq<Duration>,
            delays: Seq<Result<(), X>>,
        | accounts_for_checked(op, delay, settings@, attempts, waited, delays, outcome);
        law_fitting_schedule_never_stalls(settings@, attempts, delays);
    }
    outcome.unwrap()
}

} // verus!
