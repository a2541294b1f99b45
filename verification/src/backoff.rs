//! Exponential backoff with jitter, in exact arithmetic on nanoseconds.

use crate::jitter::Jitter;
use crate::time::{duration_from_nanos, duration_nanos, total_nanos, MAX_DURATION_NANOS};
use std::time::Duration;
use vstd::arithmetic::power2::{lemma2_to64, lemma_pow2_pos, lemma_pow2_unfold, pow2};
use vstd::prelude::*;

verus! {

/// The least scaled product whose backoff no [`Duration`] can hold: one more than
/// [`MAX_DURATION_NANOS`], times the jitter scale.
const SCALED_LIMIT: u128 = 18_446_744_073_709_551_616_000_000_000_000_000_000;

/// `base * initial_backoff * 2^retry_attempts`, with the jitter factor `base` still in
/// billionths.
pub open spec fn scaled_backoff(base: nat, initial_backoff: nat, retry_attempts: nat) -> nat {
    base * initial_backoff * pow2(retry_attempts)
}

/// The backoff before retry number `retry_attempts + 1`, in nanoseconds:
/// `base * initial_backoff * 2^retry_attempts`, rounded down to a whole nanosecond.
///
/// `base` is the jitter factor in billionths, `initial_backoff` the backoff unit in
/// nanoseconds, and `retry_attempts` the number of retries granted so far.
pub open spec fn exponential_backoff(base: nat, initial_backoff: nat, retry_attempts: nat) -> nat {
    scaled_backoff(base, initial_backoff, retry_attempts) / 1_000_000_000
}

/// Before any retry the scaled backoff is the jitter factor times the backoff unit.
pub proof fn lemma_scaled_backoff_starts(base: nat, initial_backoff: nat)
    ensures
        scaled_backoff(base, initial_backoff, 0) == base * initial_backoff,
{
    let unit: nat = base * initial_backoff;
    assert(pow2(0) == 1) by {
        lemma2_to64();
    }
    assert(unit * 1 == unit) by (nonlinear_arith);
}

/// One more retry doubles the scaled backoff.
pub proof fn lemma_scaled_backoff_doubles(base: nat, initial_backoff: nat, retry_attempts: nat)
    ensures
        scaled_backoff(base, initial_backoff, retry_attempts + 1) == 2 * scaled_backoff(
            base,
            initial_backoff,
            retry_attempts,
        ),
{
    let unit: nat = base * initial_backoff;
    let power: nat = pow2(retry_attempts);
    lemma_pow2_unfold(retry_attempts + 1);
    assert(unit * (2 * power) == 2 * (unit * power)) by (nonlinear_arith);
}

/// The scaled backoff never shrinks as retries are granted.
pub proof fn lemma_scaled_backoff_grows(base: nat, initial_backoff: nat, fewer: nat, more: nat)
    requires
        fewer <= more,
    ensures
        scaled_backoff(base, initial_backoff, fewer) <= scaled_backoff(base, initial_backoff, more),
    decreases more - fewer,
{
    if fewer < more {
        lemma_scaled_backoff_grows(base, initial_backoff, fewer, (more - 1) as nat);
        lemma_scaled_backoff_doubles(base, initial_backoff, (more - 1) as nat);
    }
}

/// A scaled backoff that is zero after some number of retries is zero after any number.
pub proof fn lemma_scaled_backoff_zero(base: nat, initial_backoff: nat, once: nat, ever: nat)
    requires
        scaled_backoff(base, initial_backoff, once) == 0,
    ensures
        scaled_backoff(base, initial_backoff, ever) == 0,
{
    let unit: nat = base * initial_backoff;
    lemma_pow2_pos(once);
    assert(unit == 0) by (nonlinear_arith)
        requires
            unit * pow2(once) == 0,
            pow2(once) > 0,
            unit >= 0,
    ;
    assert(unit * pow2(ever) == 0) by (nonlinear_arith)
        requires
            unit == 0,
    ;
}

/// The backoff before the next retry: `base * initial_backoff * 2^retry_attempts`, where
/// `retry_attempts` counts the retries granted so far, so that the first retry waits
/// `base * initial_backoff`.
///
/// Returns `None` exactly where the backoff is longer than any [`Duration`].
pub fn calculate_exponential_backoff(
    base: Jitter,
    initial_backoff: Duration,
    retry_attempts: u32,
) -> (backoff: Option<Duration>)
    ensures
        backoff matches Some(delay) ==> duration_nanos(delay) == exponential_backoff(
            base@,
            duration_nanos(initial_backoff),
            retry_attempts as nat,
        ),
        backoff is None <==> exponential_backoff(
            base@,
            duration_nanos(initial_backoff),
            retry_attempts as nat,
        ) > MAX_DURATION_NANOS,
{
    let parts: u128 = base.parts_per_billion() as u128;
    let initial: u128 = total_nanos(initial_backoff);
    let ghost unit: nat = duration_nanos(initial_backoff);
    assert(parts * initial <= 0xffff_ffff * MAX_DURATION_NANOS) by (nonlinear_arith)
        requires
            parts <= 0xffff_ffff,
            initial <= MAX_DURATION_NANOS,
    ;
    let mut product: u128 = parts * initial;
    proof {
        lemma_scaled_backoff_starts(base@, unit);
        lemma_scaled_backoff_grows(base@, unit, 0, retry_attempts as nat);
    }
    if product >= SCALED_LIMIT {
        return None;
    }
    // Double once per retry granted. The product only grows, so the first time that it
    // reaches the limit settles the matter, and a product of zero stays zero.
    let mut doubled: u32 = 0;
    while doubled < retry_attempts && product != 0
        invariant
            doubled <= retry_attempts,
            unit == duration_nanos(initial_backoff),
            product == scaled_backoff(base@, unit, doubled as nat),
            product < SCALED_LIMIT,
        decreases retry_attempts - doubled,
    {
        proof {
            lemma_scaled_backoff_doubles(base@, unit, doubled as nat);
            lemma_scaled_backoff_grows(base@, unit, (doubled + 1) as nat, retry_attempts as nat);
        }
        if product >= SCALED_LIMIT - product {
            return None;
        }
        product = product + product;
        doubled = doubled + 1;
    }
    proof {
        if doubled < retry_attempts {
            lemma_scaled_backoff_zero(base@, unit, doubled as nat, retry_attempts as nat);
        }
    }
    duration_from_nanos(product / 1_000_000_000)
}

} // verus!
