//! What holds of every handler and every decision, proved from the definitions.

use crate::backoff::{
    exponential_backoff, lemma_scaled_backoff_doubles, lemma_scaled_backoff_starts, scaled_backoff,
};
use crate::handler::RetryHandlerView;
use crate::jitter::{Jitter, JitterBase, JITTER_SCALE};
use crate::time::duration_nanos;
use aws_smithy_types::retry::RetryKind;
use std::time::Duration;
use vstd::arithmetic::power2::pow2;
use vstd::prelude::*;

verus! {

/// A granted retry never lowers the count of attempts: after a retryable error it is one
/// higher, after an explicit delay it is the same. The successor is again a state that a
/// handler can be in.
pub proof fn lemma_attempts_never_decrease<S: Clone>(
    handler: RetryHandlerView<S>,
    retry_kind: RetryKind,
    next: RetryHandlerView<S>,
    delay: Duration,
)
    requires
        handler.valid(),
        handler.decides(retry_kind, Some((next, delay))),
    ensures
        next.attempts >= handler.attempts,
        retry_kind is Error ==> next.attempts == handler.attempts + 1,
        retry_kind is Explicit ==> next.attempts == handler.attempts,
        next.valid(),
{
}

/// Whether `next` can come with a retry that `handler` grants on a retryable error.
pub open spec fn grants_retry<S: Clone>(
    handler: RetryHandlerView<S>,
    next: RetryHandlerView<S>,
) -> bool {
    exists|delay: Duration| #[trigger] handler.decides_error(Some((next, delay)))
}

/// Whether each handler of `chain` but the first is the one that came with the retry that
/// its predecessor granted on a retryable error.
pub open spec fn retried_in_turn<S: Clone>(chain: Seq<RetryHandlerView<S>>) -> bool {
    forall|i: int| 0 <= i < chain.len() - 1 ==> grants_retry(#[trigger] chain[i], chain[i + 1])
}

/// After `n` retries granted in a row, the count of attempts is `n` higher than it was,
/// and still within what the configuration allows.
pub proof fn lemma_attempts_count_retries<S: Clone>(chain: Seq<RetryHandlerView<S>>, n: int)
    requires
        retried_in_turn(chain),
        0 <= n < chain.len(),
        chain[0].valid(),
    ensures
        chain[n].attempts == chain[0].attempts + n,
        chain[n].config == chain[0].config,
        chain[n].valid(),
    decreases n,
{
    if n > 0 {
        lemma_attempts_count_retries(chain, n - 1);
        let before = chain[n - 1];
        assert(grants_retry(before, chain[n]));
        let delay = choose|delay: Duration| #[trigger]
            before.decides_error(Some((chain[n], delay)));
        assert(before.decides_error(Some((chain[n], delay))));
    }
}

/// Once as many attempts have been made as the configuration allows, a retryable error is
/// not retried, whatever else the configuration holds.
pub proof fn lemma_exhausted_stops<S: Clone>(
    handler: RetryHandlerView<S>,
    retry_kind: RetryKind,
    outcome: Option<(RetryHandlerView<S>, Duration)>,
)
    requires
        handler.exhausted(),
        retry_kind is Error,
        handler.decides(retry_kind, outcome),
    ensures
        outcome is None,
{
}

/// With a jitter factor of one the backoff is the backoff unit times a power of two: the
/// unit itself before the first retry, and twice the last one before each further retry.
pub proof fn lemma_unit_jitter_doubles(base: Jitter, initial_backoff: nat, retry_attempts: nat)
    requires
        base@ == JITTER_SCALE,
    ensures
        exponential_backoff(base@, initial_backoff, retry_attempts) == initial_backoff * pow2(
            retry_attempts,
        ),
        exponential_backoff(base@, initial_backoff, 0) == initial_backoff,
        exponential_backoff(base@, initial_backoff, retry_attempts + 1) == 2 * exponential_backoff(
            base@,
            initial_backoff,
            retry_attempts,
        ),
{
    let scale: nat = JITTER_SCALE as nat;
    let power: nat = pow2(retry_attempts);
    assert(scaled_backoff(scale, initial_backoff, retry_attempts) == (initial_backoff * power)
        * 1_000_000_000) by (nonlinear_arith)
        requires
            scale == 1_000_000_000,
            scaled_backoff(scale, initial_backoff, retry_attempts) == scale * initial_backoff
                * power,
    ;
    lemma_scaled_backoff_doubles(scale, initial_backoff, retry_attempts);
    lemma_scaled_backoff_starts(scale, initial_backoff);
}

/// Where the jitter factor is fixed at one, the delays of retries granted in a row on
/// retryable errors form a geometric sequence with ratio two that starts at the backoff
/// unit, each delay cut off at the configured ceiling.
pub proof fn lemma_unit_jitter_delays<S: Clone>(
    handler: RetryHandlerView<S>,
    base: Jitter,
    next: RetryHandlerView<S>,
    delay: Duration,
)
    requires
        handler.valid(),
        base@ == JITTER_SCALE,
        handler.config.base == JitterBase::Fixed(base),
        handler.decides_error(Some((next, delay))),
    ensures
        ({
            let uncapped: nat = handler.config.initial_backoff * pow2(
                (handler.attempts - 1) as nat,
            );
            duration_nanos(delay) == if uncapped <= handler.config.max_backoff {
                uncapped
            } else {
                handler.config.max_backoff
            }
        }),
        handler.attempts == 1 && handler.config.initial_backoff <= handler.config.max_backoff
            ==> duration_nanos(delay) == handler.config.initial_backoff,
        forall|other: Jitter| #[trigger]
            next.config.base.yields(other) ==> exponential_backoff(
                other@,
                next.config.initial_backoff,
                (next.attempts - 1) as nat,
            ) == 2 * exponential_backoff(
                base@,
                handler.config.initial_backoff,
                (handler.attempts - 1) as nat,
            ),
{
    let retries: nat = (handler.attempts - 1) as nat;
    lemma_unit_jitter_doubles(base, handler.config.initial_backoff, retries);
}

/// Where the jitter factor is fixed at one, the retry that follows `n` retries granted in
/// a row comes after the backoff unit times `2^n`, cut off at the configured ceiling: with
/// a unit of one second and a fresh handler, after 1s, 2s, 4s, 8s and so on.
pub proof fn lemma_unit_jitter_sequence<S: Clone>(
    chain: Seq<RetryHandlerView<S>>,
    base: Jitter,
    n: int,
    delay: Duration,
)
    requires
        retried_in_turn(chain),
        chain[0].valid(),
        base@ == JITTER_SCALE,
        chain[0].config.base == JitterBase::Fixed(base),
        0 <= n < chain.len() - 1,
        chain[n].decides_error(Some((chain[n + 1], delay))),
    ensures
        ({
            let retries: nat = (chain[0].attempts - 1 + n) as nat;
            let uncapped: nat = chain[0].config.initial_backoff * pow2(retries);
            duration_nanos(delay) == if uncapped <= chain[0].config.max_backoff {
                uncapped
            } else {
                chain[0].config.max_backoff
            }
        }),
        chain[0].attempts == 1 && chain[0].config.initial_backoff == 1_000_000_000 ==> ({
            let uncapped: nat = 1_000_000_000 * pow2(n as nat);
            duration_nanos(delay) == if uncapped <= chain[0].config.max_backoff {
                uncapped
            } else {
                chain[0].config.max_backoff
            }
        }),
{
    lemma_attempts_count_retries(chain, n);
    lemma_unit_jitter_delays(chain[n], base, chain[n + 1], delay);
}

/// No delay after a retryable error is longer than the configured ceiling, and a jitter
/// factor below one, as the random source gives it, never makes the backoff longer than
/// the backoff unit times two to the number of retries granted.
pub proof fn lemma_delay_is_bounded<S: Clone>(
    handler: RetryHandlerView<S>,
    base: Jitter,
    next: RetryHandlerView<S>,
    delay: Duration,
)
    requires
        handler.valid(),
        handler.decides_error_with(base, Some((next, delay))),
    ensures
        duration_nanos(delay) <= handler.config.max_backoff,
        base@ <= JITTER_SCALE ==> duration_nanos(delay) <= handler.config.initial_backoff * pow2(
            (handler.attempts - 1) as nat,
        ),
{
    let retries: nat = (handler.attempts - 1) as nat;
    let full: nat = handler.config.initial_backoff * pow2(retries);
    if base@ <= JITTER_SCALE {
        assert(scaled_backoff(base@, handler.config.initial_backoff, retries) <= full
            * 1_000_000_000) by (nonlinear_arith)
            requires
                base@ <= 1_000_000_000,
                full == handler.config.initial_backoff * pow2(retries),
                scaled_backoff(base@, handler.config.initial_backoff, retries) == base@
                    * handler.config.initial_backoff * pow2(retries),
        ;
    }
}

/// An explicit delay is granted as given, whatever the count of attempts, and takes
/// nothing from the attempts that are left: a retryable error after it is decided as it
/// would have been before it.
pub proof fn lemma_explicit_delay_keeps_budget<S: Clone>(
    handler: RetryHandlerView<S>,
    dur: Duration,
    outcome: Option<(RetryHandlerView<S>, Duration)>,
)
    requires
        handler.decides(RetryKind::Explicit(dur), outcome),
    ensures
        outcome matches Some((next, delay)) && {
            &&& delay == dur
            &&& next.attempts == handler.attempts
            &&& next.config == handler.config
            &&& next.exhausted() == handler.exhausted()
            &&& forall|base: Jitter| #[trigger] next.backoff(base) == handler.backoff(base)
            &&& forall|base: Jitter, later: Option<(RetryHandlerView<S>, Duration)>| #[trigger]
                next.decides_error_with(base, later) ==> {
                    &&& later is None <==> handler.exhausted()
                    &&& later matches Some((after, wait)) ==> {
                        &&& after.attempts == handler.attempts + 1
                        &&& duration_nanos(wait) == handler.backoff(base)
                    }
                }
        },
{
}

/// A failure that is not to be retried and a result that needs no retry are never
/// retried, whatever the count of attempts.
pub proof fn lemma_unneeded_never_retried<S: Clone>(
    handler: RetryHandlerView<S>,
    retry_kind: RetryKind,
    outcome: Option<(RetryHandlerView<S>, Duration)>,
)
    requires
        retry_kind is UnretryableFailure || retry_kind is Unnecessary,
        handler.decides(retry_kind, outcome),
    ensures
        outcome is None,
{
}

/// A handler that has refused to retry stays at that.
///
/// - What it refused once it refuses again: no later decision on the same kind of result
///   comes with a successor.
/// - If it refused a retryable error, its attempts are exhausted, and then nothing but an
///   explicit delay is granted; the handler that comes with an explicit delay is
///   exhausted as well.
pub proof fn lemma_refusal_is_final<S: Clone>(
    handler: RetryHandlerView<S>,
    refused: RetryKind,
    retry_kind: RetryKind,
    outcome: Option<(RetryHandlerView<S>, Duration)>,
)
    requires
        handler.decides(refused, None),
        handler.decides(retry_kind, outcome),
    ensures
        retry_kind == refused ==> outcome is None,
        refused is Error ==> handler.exhausted(),
        refused is Error && !(retry_kind is Explicit) ==> outcome is None,
        refused is Error && retry_kind is Explicit ==> (outcome matches Some((next, _))
            && next.exhausted()),
{
}

} // verus!
