//! The configuration of a retry.

use crate::schedule::{
    backoff_after, lemma_backoff_grows, lemma_backoff_of_zero, lemma_backoff_start,
    lemma_backoff_step,
};
use crate::time::{duration_nanos, MAX_DURATION_NANOS};
use std::time::Duration;
use vstd::prelude::*;

verus! {

/// How often an operation is retried, and how long the first wait is.
///
/// The value is plain data. Nothing is validated: a zero backoff is accepted,
/// and so is a backoff that cannot be doubled as often as there are retries
/// (see [`BackoffSettings::schedule_fits`]).
#[derive(Clone, Copy)]
pub struct BackoffSettings {
    /// The delay before the first retry. The first attempt is never delayed.
    pub initial_backoff: Duration,
    /// How many retries may follow the first attempt.
    pub total_retries: usize,
}

/// The settings as numbers: the initial backoff in nanoseconds and the
/// number of retries.
pub struct Policy {
    /// The delay before the first retry, in nanoseconds.
    pub initial_backoff: nat,
    /// How many retries may follow the first attempt.
    pub total_retries: nat,
}

impl Policy {
    /// The delay requested before retry number `retry`, counted from 1:
    /// `initial_backoff * 2^(retry - 1)`.
    pub open spec fn backoff_before_retry(self, retry: nat) -> nat
        recommends
            retry >= 1,
    {
        backoff_after(self.initial_backoff, (retry - 1) as nat)
    }

    /// Whether a delay of `nanos` nanoseconds is one that a retry may ask for:
    /// the delay before one of the retries that the budget allows.
    pub open spec fn requests(self, nanos: nat) -> bool {
        exists|retry: nat|
            1 <= retry <= self.total_retries && nanos == #[trigger] self.backoff_before_retry(
                retry,
            )
    }

    /// Whether the backoff can be doubled `times` times without growing past
    /// the longest `Duration`.
    pub open spec fn doubles(self, times: nat) -> bool {
        times == 0 || backoff_after(self.initial_backoff, times) <= MAX_DURATION_NANOS
    }

    /// Whether the backoff can be doubled once for each retry.
    pub open spec fn fits(self) -> bool {
        self.doubles(self.total_retries)
    }

    /// A backoff that can be doubled some number of times can be doubled any
    /// smaller number of times.
    pub proof fn lemma_doubles_fewer(self, fewer: nat, times: nat)
        requires
            fewer <= times,
            self.doubles(times),
        ensures
            self.doubles(fewer),
    {
        lemma_backoff_grows(self.initial_backoff, fewer, times);
    }
}

impl View for BackoffSettings {
    type V = Policy;

    open spec fn view(&self) -> Policy {
        Policy {
            initial_backoff: duration_nanos(self.initial_backoff),
            total_retries: self.total_retries as nat,
        }
    }
}

impl Default for BackoffSettings {
    /// An initial backoff of 50 milliseconds and 5 retries.
    fn default() -> (settings: Self)
        ensures
            settings@ == (Policy { initial_backoff: 50_000_000, total_retries: 5 }),
    {
        BackoffSettings { initial_backoff: Duration::from_millis(50), total_retries: 5 }
    }
}

impl BackoffSettings {
    /// Tells whether the whole schedule of these settings can be represented:
    /// whether the initial backoff, doubled `total_retries` times, is still a
    /// `Duration`.
    ///
    /// A retry with settings that fit never runs into an overflow, however the
    /// operation behaves.
    pub fn schedule_fits(&self) -> (fits: bool)
        ensures
            fits == self@.fits(),
    {
        if self.total_retries == 0 {
            return true;
        }
        let initial: u128 = self.initial_backoff.as_nanos();
        proof {
            lemma_backoff_start(initial as nat);
            lemma_backoff_grows(initial as nat, 0, self.total_retries as nat);
        }
        // Nothing says here that a `Duration` is never longer than the longest
        // one, so the test is made.
        if initial > MAX_DURATION_NANOS {
            return false;
        }
        if initial == 0 {
            proof {
                lemma_backoff_of_zero(self.total_retries as nat);
            }
            return true;
        }
        let mut backoff: u128 = initial;
        let mut doublings: usize = 0;
        while doublings < self.total_retries
            invariant
                doublings <= self.total_retries,
                backoff == backoff_after(initial as nat, doublings as nat),
                backoff <= MAX_DURATION_NANOS,
                initial == duration_nanos(self.initial_backoff),
            decreases self.total_retries - doublings,
        {
            proof {
                lemma_backoff_step(initial as nat, doublings as nat);
            }
            if backoff > MAX_DURATION_NANOS / 2 {
                proof {
                    lemma_backoff_grows(
                        initial as nat,
                        (doublings + 1) as nat,
                        self.total_retries as nat,
                    );
                }
                return false;
            }
            backoff = backoff * 2;
            doublings = doublings + 1;
        }
        true
    }
}

} // verus!
