//! The arithmetic of the backoff schedule.
//!
//! The delay before the first retry is the initial backoff, and every later
//! delay is twice the one before it. Nothing caps the growth. All lengths
//! here are in nanoseconds.

use vstd::arithmetic::power2::{lemma2_to64, lemma_pow2_unfold, pow2};
use vstd::prelude::*;

verus! {

/// The backoff after `doublings` doublings of `initial`: `initial * 2^doublings`.
///
/// It is the delay requested before retry number `doublings + 1`.
pub open spec fn backoff_after(initial: nat, doublings: nat) -> nat {
    initial * pow2(doublings)
}

/// Before anything has been doubled the backoff is the initial one.
pub proof fn lemma_backoff_start(initial: nat)
    ensures
        backoff_after(initial, 0) == initial,
{
    lemma2_to64();
}

/// One more doubling doubles the backoff.
pub proof fn lemma_backoff_step(initial: nat, doublings: nat)
    ensures
        backoff_after(initial, doublings + 1) == 2 * backoff_after(initial, doublings),
{
    lemma_pow2_unfold(doublings + 1);
    assert(initial * (2 * pow2(doublings)) == 2 * (initial * pow2(doublings)))
        by (nonlinear_arith);
}

/// The backoff never shrinks as the doublings go on.
pub proof fn lemma_backoff_grows(initial: nat, earlier: nat, later: nat)
    requires
        earlier <= later,
    ensures
        backoff_after(initial, earlier) <= backoff_after(initial, later),
    decreases later - earlier,
{
    if earlier < later {
        lemma_backoff_grows(initial, earlier, (later - 1) as nat);
        lemma_backoff_step(initial, (later - 1) as nat);
    }
}

/// A backoff that starts at zero stays at zero.
pub proof fn lemma_backoff_of_zero(doublings: nat)
    ensures
        backoff_after(0, doublings) == 0,
{
    assert(0 * pow2(doublings) == 0) by (nonlinear_arith);
}

} // verus!
