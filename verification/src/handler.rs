//! The per-request state machine: whether to retry, after what delay, and with which
//! handler to go on.

use crate::backoff::{calculate_exponential_backoff, exponential_backoff};
use crate::config::{Config, ConfigView};
use crate::jitter::Jitter;
use crate::time::{duration_nanos, total_nanos};
use aws_smithy_types::retry::{ErrorKind, RetryKind};
use std::time::Duration;
use vstd::prelude::*;

verus! {

/// `aws_smithy_types::retry::ErrorKind`: the kinds of retryable error. Nothing of its inside
/// is known here, as no decision depends on which kind it is.
#[verifier::external_type_specification]
#[verifier::external_body]
pub struct ExErrorKind(ErrorKind);

/// `aws_smithy_types::retry::RetryKind`: what a classifier says of an attempt's result.
/// Declared with its variants, so that the decisions below are checked against the enum as
/// its crate defines it.
#[verifier::external_type_specification]
pub struct ExRetryKind(RetryKind);

/// The attempts that one request has made so far.
#[derive(Clone, Copy, Debug)]
pub struct RequestLocalRetryState {
    attempts: u32,
}

impl View for RequestLocalRetryState {
    type V = nat;

    /// The number of attempts made.
    closed spec fn view(&self) -> nat {
        self.attempts as nat
    }
}

impl RequestLocalRetryState {
    /// The first attempt has always been made.
    #[verifier::type_invariant]
    pub open spec fn inv(self) -> bool {
        self@ >= 1
    }

    /// The state of a request whose first attempt has been made.
    pub fn new() -> (state: Self)
        ensures
            state@ == 1,
    {
        Self::default()
    }

    /// The number of attempts made.
    pub fn attempts(&self) -> (attempts: u32)
        ensures
            attempts == self@,
    {
        self.attempts
    }
}

impl Default for RequestLocalRetryState {
    fn default() -> (state: Self)
        ensures
            state@ == 1,
    {
        Self {
            // Starts at one to account for the initial request that failed and warranted a retry
            attempts: 1,
        }
    }
}

/// What a [`RetryHandler`] holds: the attempts made, the configuration, and the sleeper
/// that it was given, if any.
pub struct RetryHandlerView<S> {
    /// The attempts made so far, the first one included.
    pub attempts: nat,
    /// The policy's configuration.
    pub config: ConfigView,
    /// What will wait out the delay before the next attempt.
    pub sleep_impl: Option<S>,
}

/// Whether `to` is the sleeper `from`, passed on by cloning: both absent, or both present
/// and the second a clone of the first.
pub open spec fn sleeper_passed_on<S: Clone>(from: Option<S>, to: Option<S>) -> bool {
    match (from, to) {
        (None, None) => true,
        (Some(from), Some(to)) => cloned(from, to),
        _ => false,
    }
}

impl<S> RetryHandlerView<S> {
    /// Whether this is a state that a handler can be in: between one attempt and as many as
    /// the configuration allows.
    pub open spec fn valid(self) -> bool {
        1 <= self.attempts <= self.config.max_attempts
    }

    /// Whether every allowed attempt has been made.
    pub open spec fn exhausted(self) -> bool {
        self.attempts == self.config.max_attempts
    }

    /// The delay before the next attempt after a retryable error, in nanoseconds, for the
    /// jitter factor `base`: the exponential backoff for the retries granted so far, cut
    /// off at the configured ceiling.
    pub open spec fn backoff(self, base: Jitter) -> nat {
        let uncapped: nat = exponential_backoff(
            base@,
            self.config.initial_backoff,
            (self.attempts - 1) as nat,
        );
        if uncapped <= self.config.max_backoff {
            uncapped
        } else {
            self.config.max_backoff
        }
    }
}

impl<S: Clone> RetryHandlerView<S> {
    /// Whether `next` is this state after one more attempt: one attempt further, with the
    /// same configuration and sleeper.
    pub open spec fn succeeded_by(self, next: Self) -> bool {
        &&& next.attempts == self.attempts + 1
        &&& next.config == self.config
        &&& sleeper_passed_on(self.sleep_impl, next.sleep_impl)
    }

    /// Whether `next` is this state over again: the same attempts, configuration and
    /// sleeper.
    pub open spec fn repeated_by(self, next: Self) -> bool {
        &&& next.attempts == self.attempts
        &&& next.config == self.config
        &&& sleeper_passed_on(self.sleep_impl, next.sleep_impl)
    }

    /// Whether `outcome` is the decision on a retryable error when the jitter factor of the
    /// backoff is `base`: nothing once the attempts are exhausted, else the successor and
    /// the capped backoff.
    pub open spec fn decides_error_with(
        self,
        base: Jitter,
        outcome: Option<(Self, Duration)>,
    ) -> bool {
        if self.exhausted() {
            outcome is None
        } else {
            &&& outcome matches Some((next, delay))
            &&& self.succeeded_by(next)
            &&& duration_nanos(delay) == self.backoff(base)
        }
    }

    /// Whether `outcome` is a decision on a retryable error: the one for some jitter factor
    /// that the configured source can give.
    pub open spec fn decides_error(self, outcome: Option<(Self, Duration)>) -> bool {
        exists|base: Jitter| #[trigger]
            self.config.base.yields(base) && self.decides_error_with(base, outcome)
    }

    /// Whether an attempt classified as `retry_kind` warrants a retry: always for an explicit
    /// delay, for a retryable error while attempts are left, and never otherwise.
    pub open spec fn grants(self, retry_kind: RetryKind) -> bool {
        match retry_kind {
            RetryKind::Explicit(_) => true,
            RetryKind::Error(_) => !self.exhausted(),
            _ => false,
        }
    }

    /// Whether `outcome` is a decision on an attempt classified as `retry_kind`.
    ///
    /// - An explicit delay is always granted as given, and leaves the attempts as they are.
    /// - A retryable error is decided as [`decides_error`](Self::decides_error) says.
    /// - Anything else is not retried.
    pub open spec fn decides(self, retry_kind: RetryKind, outcome: Option<(Self, Duration)>) -> bool {
        match retry_kind {
            RetryKind::Explicit(dur) => {
                &&& outcome matches Some((next, delay))
                &&& self.repeated_by(next)
                &&& delay == dur
            },
            RetryKind::Error(_) => self.decides_error(outcome),
            _ => outcome is None,
        }
    }

    /// Whether `plan` is what a transport is to do after an attempt classified as
    /// `retry_kind`: retry as decided if a retry is warranted and there is a sleeper to
    /// wait with, and else not retry, for the reason given.
    pub open spec fn plans(
        self,
        retry_kind: RetryKind,
        plan: Result<(Self, Duration), NoRetry>,
    ) -> bool {
        match plan {
            Ok(granted) => self.sleep_impl is Some && self.decides(retry_kind, Some(granted)),
            Err(NoRetry::NoSleeper) => self.sleep_impl is None && self.grants(retry_kind),
            Err(NoRetry::NotWarranted) => !self.grants(retry_kind),
        }
    }
}

/// Implements retries for one request.
///
/// A handler is never changed: a granted retry comes with the handler for the next
/// attempt. It holds the sleeper that the transport will wait with, of whatever type `S`
/// that is, and hands it on to its successor.
#[derive(Debug)]
pub struct RetryHandler<S> {
    local: RequestLocalRetryState,
    config: Config,
    sleep_impl: Option<S>,
}

impl<S> View for RetryHandler<S> {
    type V = RetryHandlerView<S>;

    closed spec fn view(&self) -> RetryHandlerView<S> {
        RetryHandlerView {
            attempts: self.local@,
            config: self.config@,
            sleep_impl: self.sleep_impl,
        }
    }
}

/// A decision with the handler in it replaced by what it holds.
pub open spec fn outcome_view<S>(outcome: Option<(RetryHandler<S>, Duration)>) -> Option<
    (RetryHandlerView<S>, Duration),
> {
    match outcome {
        Some((next, delay)) => Some((next@, delay)),
        None => None,
    }
}

/// Why a transport is not to retry.
#[derive(Clone, Copy, Debug, PartialEq, Eq, Structural)]
pub enum NoRetry {
    /// The attempt's result does not warrant a retry.
    NotWarranted,
    /// A retry is warranted, but the handler has no sleeper to wait out the delay with.
    /// This is worth a diagnostic.
    NoSleeper,
}

/// A plan with the handler in it replaced by what it holds.
pub open spec fn plan_view<S>(plan: Result<(RetryHandler<S>, Duration), NoRetry>) -> Result<
    (RetryHandlerView<S>, Duration),
    NoRetry,
> {
    match plan {
        Ok((next, delay)) => Ok((next@, delay)),
        Err(reason) => Err(reason),
    }
}

impl<S> RetryHandler<S> {
    /// A handler has made at least one attempt and no more than its configuration allows.
    #[verifier::type_invariant]
    pub open spec fn inv(self) -> bool {
        self@.valid()
    }

    /// The handler for a request whose first attempt has just been made.
    pub(crate) fn new(config: Config, sleep_impl: Option<S>) -> (handler: Self)
        ensures
            handler@ == (RetryHandlerView { attempts: 1, config: config@, sleep_impl }),
    {
        proof {
            use_type_invariant(&config);
        }
        RetryHandler { local: RequestLocalRetryState::new(), config, sleep_impl }
    }

    /// The attempts made so far, the first one included.
    pub fn attempts(&self) -> (attempts: u32)
        ensures
            attempts == self@.attempts,
    {
        self.local.attempts()
    }

    /// The configuration that this handler decides by.
    pub fn config(&self) -> (config: &Config)
        ensures
            config@ == self@.config,
    {
        &self.config
    }

    /// The sleeper that this handler was given, if any.
    pub fn sleep_impl(&self) -> (sleep_impl: Option<&S>)
        ensures
            sleep_impl is Some <==> self@.sleep_impl is Some,
            sleep_impl matches Some(sleep) ==> self@.sleep_impl == Some(*sleep),
    {
        self.sleep_impl.as_ref()
    }
}

impl<S: Clone> Clone for RetryHandler<S> {
    /// A handler with the same attempts and configuration, and a clone of the sleeper.
    fn clone(&self) -> (handler: Self)
        ensures
            self@.repeated_by(handler@),
    {
        proof {
            use_type_invariant(self);
        }
        RetryHandler {
            local: self.local,
            config: self.config,
            sleep_impl: self.sleep_impl.clone(),
        }
    }
}

impl<S: Clone> RetryHandler<S> {
    /// Decides on a retryable error, given the jitter factor `base` for the backoff.
    ///
    /// Once as many attempts have been made as the configuration allows, there is no
    /// retry. Before that, the retry comes with the handler for the next attempt and the
    /// delay before it: the exponential backoff, not longer than the configured ceiling.
    pub fn should_retry_error_with(&self, base: Jitter) -> (outcome: Option<(Self, Duration)>)
        ensures
            self@.decides_error_with(base, outcome_view(outcome)),
            outcome is None <==> self@.exhausted(),
    {
        proof {
            use_type_invariant(self);
        }
        let attempts: u32 = self.local.attempts();
        if attempts == self.config.max_attempts() {
            return None;
        }
        let backoff = calculate_exponential_backoff(
            base,
            self.config.initial_backoff(),
            // the attempts made include the initial request, which is not to count towards
            // the backoff
            attempts - 1,
        );
        let max_backoff = self.config.max_backoff();
        let ceiling: u128 = total_nanos(max_backoff);
        let delay = match backoff {
            Some(uncapped) => if total_nanos(uncapped) <= ceiling {
                uncapped
            } else {
                max_backoff
            },
            // longer than any duration, so longer than the ceiling
            None => max_backoff,
        };
        let next = RetryHandler {
            local: RequestLocalRetryState { attempts: attempts + 1 },
            config: self.config,
            sleep_impl: self.sleep_impl.clone(),
        };

        Some((next, delay))
    }

    /// Decides on a retryable error, with a jitter factor drawn from the configured source.
    ///
    /// The outcome is that of [`should_retry_error_with`](Self::should_retry_error_with)
    /// for some factor that the source can give.
    pub fn should_retry_error(&self) -> (outcome: Option<(Self, Duration)>)
        ensures
            self@.decides_error(outcome_view(outcome)),
            outcome is None <==> self@.exhausted(),
    {
        // a random factor spreads out the retries of clients that failed together
        let base = self.config.base().draw();
        self.should_retry_error_with(base)
    }

    /// Determines the response to an attempt that was classified as `retry_kind`.
    ///
    /// If a retry is granted, this returns the handler for the next attempt and the delay
    /// before it; if none is, `None`.
    pub fn should_retry(&self, retry_kind: &RetryKind) -> (outcome: Option<(Self, Duration)>)
        ensures
            self@.decides(*retry_kind, outcome_view(outcome)),
            outcome is Some <==> self@.grants(*retry_kind),
    {
        match retry_kind {
            RetryKind::Explicit(dur) => Some((self.clone(), *dur)),
            RetryKind::UnretryableFailure => None,
            RetryKind::Unnecessary => None,
            RetryKind::Error(_) => self.should_retry_error(),
            _ => None,
        }
    }

    /// Plans what follows an attempt that was classified as `retry_kind`, for a transport
    /// that will wait out the delay before it retries.
    ///
    /// Where [`should_retry`](Self::should_retry) grants a retry and this handler has a
    /// sleeper, the plan is that retry: the transport waits for the delay with the sleeper
    /// and then goes on with the handler that came with it. Without a sleeper a retry that
    /// is warranted is still not made.
    pub fn retry_for(&self, retry_kind: &RetryKind) -> (plan: Result<(Self, Duration), NoRetry>)
        ensures
            self@.plans(*retry_kind, plan_view(plan)),
            plan is Ok <==> self@.sleep_impl is Some && self@.grants(*retry_kind),
    {
        let (next, dur) = match self.should_retry(retry_kind) {
            Some(granted) => granted,
            None => {
                return Err(NoRetry::NotWarranted);
            },
        };
        match &self.sleep_impl {
            Some(_) => Ok((next, dur)),
            None => Err(NoRetry::NoSleeper),
        }
    }
}

/// Hands `t` back. A call compiles only where `t` can be sent to another thread, which is
/// what a transport asks of the future that it builds around a granted retry.
pub fn check_send<T: Send>(t: T) -> (same: T)
    ensures
        same == t,
{
    t
}

} // verus!
