//! What this library takes on trust about `std::time::Duration`.
//!
//! Verus knows `Duration` only as an opaque type. The contracts of the library
//! speak of a duration through its length in nanoseconds, [`duration_nanos`],
//! and the three functions of `Duration` that the library calls are given the
//! specifications below. None of them is proved; each repeats what the
//! standard library documents.

use std::time::Duration;
use vstd::prelude::*;

verus! {

/// The length of `Duration::MAX` in nanoseconds: `u64::MAX` whole seconds and
/// 999 999 999 nanoseconds.
pub const MAX_DURATION_NANOS: u128 = 18_446_744_073_709_551_615_999_999_999;

/// The length of a duration in nanoseconds, the number that
/// `Duration::as_nanos` returns for it.
pub uninterp spec fn duration_nanos(d: Duration) -> nat;

/// `Duration::as_nanos` returns the total number of nanoseconds that the
/// duration holds. Trusted: this is what gives [`duration_nanos`] its meaning.
pub assume_specification[ Duration::as_nanos ](d: &Duration) -> (nanos: u128)
    ensures
        nanos == duration_nanos(*d),
;

/// `Duration::from_millis` makes the duration of the given number of
/// milliseconds, each of which is a million nanoseconds. Trusted.
pub assume_specification[ Duration::from_millis ](millis: u64) -> (d: Duration)
    ensures
        duration_nanos(d) == millis * 1_000_000,
;

/// `Duration::checked_mul` multiplies the duration by `rhs`. It returns the
/// product where that is no longer than `Duration::MAX`, and `None` where it
/// is. Trusted.
pub assume_specification[ Duration::checked_mul ](d: Duration, rhs: u32) -> (product: Option<
    Duration,
>)
    ensures
        match product {
            Some(p) => duration_nanos(p) == duration_nanos(d) * rhs && duration_nanos(p)
                <= MAX_DURATION_NANOS,
            None => duration_nanos(d) * rhs > MAX_DURATION_NANOS,
        },
;

} // verus!
