//! A retry replayed against scripted outcomes.
//!
//! What a retry does depends on how the operation and the delays turn out,
//! and on nothing else. So a whole retry can be written down as a function of
//! two scripts: the outcomes of the successive invocations of the operation,
//! and the outcomes of the successive delays. [`run`] is that function. It
//! steps the state machine of [`crate::machine`] through the scripts and
//! records what was invoked and requested on the way.

use crate::machine::{Phase, Progress};
use crate::schedule::{backoff_after, lemma_backoff_start, lemma_backoff_step};
use crate::settings::Policy;
use vstd::prelude::*;

verus! {

/// How a retry came to its end.
pub enum End<T, E, X> {
    /// With an attempt: a success, or the failure that used up the budget.
    Settled(Result<T, E>),
    /// With a delay that failed.
    DelayFailed(X),
}

/// The record of a retry.
pub struct Run<T, E, X> {
    /// How it ended.
    pub end: End<T, E, X>,
    /// How many times the operation was invoked.
    pub invocations: nat,
    /// The delays that were requested, in order, in nanoseconds.
    pub waits: Seq<nat>,
}

impl<T, E, X> Run<T, E, X> {
    /// How many of the requested delays elapsed: all of them, or all but the
    /// last where that is the one that failed. After each of them the backoff
    /// was doubled.
    pub open spec fn elapsed(self) -> nat {
        match self.end {
            End::Settled(_) => self.waits.len(),
            End::DelayFailed(_) => (self.waits.len() - 1) as nat,
        }
    }
}

/// The retry from `state` on, which is about to make an attempt.
///
/// The attempt made with `i` failures counted takes its outcome from
/// `attempts[i]`, and the delay after it from `delays[i]`: the count moves by
/// one between any two invocations, so `attempts[i]` is the outcome of
/// invocation number `i + 1`. The record counts what happens from `state` on.
///
/// The scripts are read by index and never measured. Where a script is
/// shorter than the retry, the entries past its end are whatever `Seq` makes
/// of them; what is proved of a run holds whatever they are.
pub open spec fn run_from<T, E, X>(
    state: Progress,
    attempts: Seq<Result<T, E>>,
    delays: Seq<Result<(), X>>,
) -> Run<T, E, X>
    decreases state.policy.total_retries - state.attempt_count,
{
    let result = attempts[state.attempt_count as int];
    if state.settles(result is Ok) {
        Run { end: End::Settled(result), invocations: 1, waits: Seq::empty() }
    } else {
        match delays[state.attempt_count as int] {
            Err(failure) => Run {
                end: End::DelayFailed(failure),
                invocations: 1,
                waits: seq![state.current_backoff],
            },
            Ok(_) => {
                let rest = run_from(
                    state.after_attempt(false).after_delay(true),
                    attempts,
                    delays,
                );
                Run {
                    end: rest.end,
                    invocations: rest.invocations + 1,
                    waits: seq![state.current_backoff] + rest.waits,
                }
            },
        }
    }
}

/// The whole retry under `policy`: `attempts[i]` is the outcome of invocation
/// number `i + 1` of the operation, `delays[j]` that of delay number `j + 1`.
pub open spec fn run<T, E, X>(
    policy: Policy,
    attempts: Seq<Result<T, E>>,
    delays: Seq<Result<(), X>>,
) -> Run<T, E, X> {
    run_from(Progress::start(policy), attempts, delays)
}

/// Whether `result` is what the caller of a retry may be handed when the
/// retry ended with `end`.
///
/// An attempt's outcome is handed over as it is. A delay's failure is handed
/// over as an `Err` that a conversion into `E` gave. Both arrive as the same
/// `Result`, so the caller cannot tell them apart.
pub open spec fn delivers<T, E: From<X>, X>(end: End<T, E, X>, result: Result<T, E>) -> bool {
    match end {
        End::Settled(outcome) => result == outcome,
        End::DelayFailed(failure) => result matches Err(error) && call_ensures(
            E::from,
            (failure,),
            error,
        ),
    }
}

/// The first `count` attempts all fail.
pub open spec fn all_fail<T, E>(attempts: Seq<Result<T, E>>, count: nat) -> bool {
    forall|i: int| 0 <= i < count ==> (#[trigger] attempts[i]) is Err
}

/// The first `count` delays all elapse.
pub open spec fn all_elapse<X>(delays: Seq<Result<(), X>>, count: nat) -> bool {
    forall|j: int| 0 <= j < count ==> (#[trigger] delays[j]) is Ok
}

/// Whether a retry that has seen `attempts` and `delays` is stuck: every
/// attempt failed with a retry left, every delay elapsed, and the backoff,
/// which could be doubled after every delay but the last, cannot be doubled
/// after the last.
pub open spec fn stalls<T, E, X>(
    policy: Policy,
    attempts: Seq<Result<T, E>>,
    delays: Seq<Result<(), X>>,
) -> bool {
    let count = attempts.len();
    &&& 1 <= count <= policy.total_retries
    &&& delays.len() == count
    &&& all_fail(attempts, count)
    &&& all_elapse(delays, count)
    &&& policy.doubles((count - 1) as nat)
    &&& !policy.doubles(count)
}

/// The delays requested before retries 1 to `count`: the initial backoff,
/// then twice as much each time.
pub open spec fn doubling_waits(policy: Policy, count: nat) -> Seq<nat> {
    Seq::new(count, |j: int| backoff_after(policy.initial_backoff, j as nat))
}

/// The state in which attempt number `failures + 1` is made.
pub open spec fn reached(policy: Policy, failures: nat) -> Progress {
    Progress {
        policy,
        attempt_count: failures,
        current_backoff: backoff_after(policy.initial_backoff, failures),
        phase: Phase::Attempting,
    }
}

/// A retry whose first `failures` attempts fail and are waited out makes
/// those invocations and requests those doubling delays, and then goes on
/// from the state it has reached.
pub proof fn lemma_run_after_failures<T, E, X>(
    policy: Policy,
    attempts: Seq<Result<T, E>>,
    delays: Seq<Result<(), X>>,
    failures: nat,
)
    requires
        failures <= policy.total_retries,
        all_fail(attempts, failures),
        all_elapse(delays, failures),
    ensures
        ({
            let whole = run(policy, attempts, delays);
            let rest = run_from(reached(policy, failures), attempts, delays);
            &&& whole.end == rest.end
            &&& whole.invocations == failures + rest.invocations
            &&& whole.waits == doubling_waits(policy, failures) + rest.waits
        }),
    decreases failures,
{
    let whole = run(policy, attempts, delays);
    let rest = run_from(reached(policy, failures), attempts, delays);
    if failures == 0 {
        lemma_backoff_start(policy.initial_backoff);
        assert(reached(policy, 0) == Progress::start(policy));
        assert(whole.waits =~= doubling_waits(policy, 0) + rest.waits);
    } else {
        let before = (failures - 1) as nat;
        lemma_run_after_failures(policy, attempts, delays, before);
        let middle = run_from(reached(policy, before), attempts, delays);
        lemma_backoff_step(policy.initial_backoff, before);
        assert(attempts[before as int] is Err);
        assert(delays[before as int] is Ok);
        assert(reached(policy, before).after_attempt(false).after_delay(true) == reached(
            policy,
            failures,
        ));
        assert(middle.waits == seq![backoff_after(policy.initial_backoff, before)] + rest.waits);
        assert(whole.waits =~= doubling_waits(policy, failures) + rest.waits);
    }
}

} // verus!
