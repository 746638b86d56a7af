//! The retry state machine.
//!
//! A retry alternates between work that only its surroundings can do
//! (invoking the operation, waiting) and decisions (stop or go on, and how
//! long to wait). [`RetryState`] makes the decisions. Whoever drives it
//! invokes the operation and reports the outcome with
//! [`RetryState::on_attempt`]; if the answer is [`Action::Wait`], it waits
//! and reports how that went with [`RetryState::on_delay`].
//!
//! ```text
//! Attempting --success------------------------> Done
//! Attempting --failure, no retries left-------> Done
//! Attempting --failure, retries left----------> Waiting
//! Waiting    --delay elapsed------------------> Attempting
//! Waiting    --delay failed-------------------> Done
//! ```

use crate::schedule::{backoff_after, lemma_backoff_start, lemma_backoff_step};
use crate::settings::{BackoffSettings, Policy};
use crate::time::{duration_nanos, MAX_DURATION_NANOS};
use std::time::Duration;
use vstd::prelude::*;

verus! {

/// Where a retry stands.
#[derive(Clone, Copy, PartialEq, Eq, Structural, Debug)]
pub enum Phase {
    /// The operation is to be invoked next.
    Attempting,
    /// The last attempt failed and the backoff delay is to be awaited next.
    Waiting,
    /// The retry is over: nothing more is to be invoked or awaited.
    Done,
}

/// What the driver of a [`RetryState`] has to do after an attempt.
#[derive(Debug, PartialEq, Eq)]
pub enum Action<T, E> {
    /// Stop, and hand this result to the caller of the retry.
    Return(Result<T, E>),
    /// Wait for this long, then report the outcome of the wait.
    Wait(Duration),
}

/// The state of one retry: its settings, the number of failed attempts that
/// have been waited out, and the delay that the next failure will incur.
pub struct RetryState {
    settings: BackoffSettings,
    attempt_count: usize,
    current_backoff: Duration,
    phase: Phase,
}

/// The state of a retry as numbers, with the backoff in nanoseconds.
pub struct Progress {
    pub policy: Policy,
    pub attempt_count: nat,
    pub current_backoff: nat,
    pub phase: Phase,
}

impl Progress {
    /// The state in which every retry starts: about to make the first
    /// attempt, with the initial backoff in hand.
    pub open spec fn start(policy: Policy) -> Progress {
        Progress {
            policy,
            attempt_count: 0,
            current_backoff: policy.initial_backoff,
            phase: Phase::Attempting,
        }
    }

    /// What holds of every state that a retry can reach: the count stays
    /// within the budget, a wait is only ever entered with a retry left, and
    /// the backoff is the initial one doubled once per counted attempt.
    pub open spec fn wf(self) -> bool {
        &&& self.attempt_count <= self.policy.total_retries
        &&& self.phase == Phase::Waiting ==> self.attempt_count < self.policy.total_retries
        &&& self.current_backoff == backoff_after(self.policy.initial_backoff, self.attempt_count)
    }

    /// Whether an attempt ends the retry: it does if it succeeded, or if the
    /// budget of retries is used up.
    pub open spec fn settles(self, succeeded: bool) -> bool {
        succeeded || self.attempt_count >= self.policy.total_retries
    }

    /// The state after an attempt. Neither the count nor the backoff moves.
    pub open spec fn after_attempt(self, succeeded: bool) -> Progress {
        Progress {
            phase: if self.settles(succeeded) {
                Phase::Done
            } else {
                Phase::Waiting
            },
            ..self
        }
    }

    /// Whether the backoff can be doubled and still be a `Duration`.
    pub open spec fn can_double(self) -> bool {
        2 * self.current_backoff <= MAX_DURATION_NANOS
    }

    /// The state after a delay. One that elapsed counts an attempt and
    /// doubles the backoff; one that failed ends the retry and counts nothing.
    pub open spec fn after_delay(self, elapsed: bool) -> Progress {
        if elapsed {
            Progress {
                attempt_count: self.attempt_count + 1,
                current_backoff: 2 * self.current_backoff,
                phase: Phase::Attempting,
                ..self
            }
        } else {
            Progress { phase: Phase::Done, ..self }
        }
    }
}

impl View for RetryState {
    type V = Progress;

    closed spec fn view(&self) -> Progress {
        Progress {
            policy: self.settings@,
            attempt_count: self.attempt_count as nat,
            current_backoff: duration_nanos(self.current_backoff),
            phase: self.phase,
        }
    }
}

impl RetryState {
    /// Every `RetryState` is well-formed, whatever has been done with it.
    #[verifier::type_invariant]
    spec fn well_formed(self) -> bool {
        self@.wf()
    }

    /// Starts a retry: no attempt has been made yet.
    pub fn new(settings: BackoffSettings) -> (state: RetryState)
        ensures
            state@ == Progress::start(settings@),
            state@.wf(),
    {
        proof {
            lemma_backoff_start(settings@.initial_backoff);
        }
        RetryState {
            settings,
            attempt_count: 0,
            current_backoff: settings.initial_backoff,
            phase: Phase::Attempting,
        }
    }

    /// Takes the outcome of an attempt and decides what follows.
    ///
    /// A success is returned as it is. So is a failure once `total_retries`
    /// failures have been waited out: the caller sees the error of the last
    /// attempt, not one made up here. Any other failure is dropped, and the
    /// answer is to wait for the current backoff.
    pub fn on_attempt<T, E>(&mut self, result: Result<T, E>) -> (action: Action<T, E>)
        requires
            old(self)@.phase == Phase::Attempting,
        ensures
            old(self)@.wf(),
            final(self)@ == old(self)@.after_attempt(result is Ok),
            final(self)@.wf(),
            match action {
                Action::Return(returned) => old(self)@.settles(result is Ok) && returned == result,
                Action::Wait(delay) => !old(self)@.settles(result is Ok) && duration_nanos(delay)
                    == old(self)@.current_backoff,
            },
    {
        proof {
            use_type_invariant(&*self);
        }
        if result.is_ok() || self.attempt_count >= self.settings.total_retries {
            self.phase = Phase::Done;
            Action::Return(result)
        } else {
            self.phase = Phase::Waiting;
            Action::Wait(self.current_backoff)
        }
    }

    /// Tells whether the backoff can be doubled, which is what
    /// [`RetryState::on_delay`] asks for before it takes a delay that elapsed.
    /// [`RetryState::checked_on_delay`] makes this test itself.
    pub fn can_double(&self) -> (possible: bool)
        ensures
            possible == self@.can_double(),
    {
        self.current_backoff.checked_mul(2).is_some()
    }

    /// Takes the outcome of a delay and decides what follows.
    ///
    /// After a delay that elapsed the attempt is counted, the backoff is
    /// doubled, and `Ok` says that the operation is to be invoked again. A
    /// delay that failed ends the retry at once, whatever is left of the
    /// budget: its error is converted and comes back as `Err`, to be returned
    /// to the caller of the retry.
    pub fn on_delay<E: From<X>, X>(&mut self, outcome: Result<(), X>) -> (next: Result<(), E>)
        requires
            old(self)@.phase == Phase::Waiting,
            outcome is Ok ==> old(self)@.can_double(),
        ensures
            old(self)@.wf(),
            final(self)@ == old(self)@.after_delay(outcome is Ok),
            final(self)@.wf(),
            match outcome {
                Ok(_) => next is Ok,
                Err(failure) => next matches Err(error) && call_ensures(
                    E::from,
                    (failure,),
                    error,
                ),
            },
    {
        proof {
            use_type_invariant(&*self);
        }
        match outcome {
            Ok(_) => {
                proof {
                    lemma_backoff_step(self@.policy.initial_backoff, self@.attempt_count);
                }
                let doubled = self.current_backoff.checked_mul(2);
                *self = RetryState {
                    settings: self.settings,
                    attempt_count: self.attempt_count + 1,
                    current_backoff: doubled.unwrap(),
                    phase: Phase::Attempting,
                };
                Ok(())
            },
            Err(failure) => {
                self.phase = Phase::Done;
                Err(E::from(failure))
            },
        }
    }

    /// Takes the outcome of a delay as [`RetryState::on_delay`] does, unless
    /// the delay elapsed and the backoff cannot be doubled: then the answer is
    /// `None` and the state stays as it was.
    pub fn checked_on_delay<E: From<X>, X>(&mut self, outcome: Result<(), X>) -> (next: Option<
        Result<(), E>,
    >)
        requires
            old(self)@.phase == Phase::Waiting,
        ensures
            old(self)@.wf(),
            final(self)@.wf(),
            next is None <==> outcome is Ok && !old(self)@.can_double(),
            match next {
                None => final(self)@ == old(self)@,
                Some(step) => {
                    &&& final(self)@ == old(self)@.after_delay(outcome is Ok)
                    &&& match outcome {
                        Ok(_) => step is Ok,
                        Err(failure) => step matches Err(error) && call_ensures(
                            E::from,
                            (failure,),
                            error,
                        ),
                    }
                },
            },
    {
        proof {
            use_type_invariant(&*self);
        }
        if outcome.is_ok() && !self.can_double() {
            None
        } else {
            Some(self.on_delay(outcome))
        }
    }

    /// Where the retry stands.
    pub fn phase(&self) -> (phase: Phase)
        ensures
            phase == self@.phase,
    {
        self.phase
    }

    /// The number of failed attempts that have been waited out.
    pub fn attempt_count(&self) -> (count: usize)
        ensures
            count == self@.attempt_count,
    {
        self.attempt_count
    }

    /// The delay that the next failed attempt will incur.
    pub fn current_backoff(&self) -> (backoff: Duration)
        ensures
            duration_nanos(backoff) == self@.current_backoff,
    {
        self.current_backoff
    }
}

} // verus!
