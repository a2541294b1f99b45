//! The tunables of a retry policy.

use crate::jitter::JitterBase;
use crate::time::duration_nanos;
use aws_smithy_types::retry::RetryConfig;
use std::time::Duration;
use vstd::prelude::*;

verus! {

/// The attempts that a request gets unless the configuration says otherwise.
pub const MAX_ATTEMPTS: u32 = 3;

/// What a [`Config`] holds, with its durations in nanoseconds.
pub struct ConfigView {
    /// The attempts that a request may make, the first one included.
    pub max_attempts: nat,
    /// The backoff before the first retry, before jitter.
    pub initial_backoff: nat,
    /// The longest backoff that is ever handed out.
    pub max_backoff: nat,
    /// Where the jitter factor of each backoff comes from.
    pub base: JitterBase,
}

impl ConfigView {
    /// Whether at least one attempt is allowed, as every configuration must.
    pub open spec fn valid(self) -> bool {
        self.max_attempts >= 1
    }

    /// What the default configuration holds: three attempts, a backoff unit of one second,
    /// a ceiling of twenty seconds and random jitter.
    pub open spec fn defaults() -> ConfigView {
        ConfigView {
            max_attempts: MAX_ATTEMPTS as nat,
            initial_backoff: 1_000_000_000,
            max_backoff: 20_000_000_000,
            base: JitterBase::Random,
        }
    }
}

/// Retry policy configuration.
///
/// A configuration is fixed once built: the `with_` methods take one and return another.
/// It always allows at least one attempt; with exactly one, retries are disabled.
#[derive(Clone, Copy, Debug)]
pub struct Config {
    max_attempts: u32,
    initial_backoff: Duration,
    max_backoff: Duration,
    base: JitterBase,
}

impl View for Config {
    type V = ConfigView;

    closed spec fn view(&self) -> ConfigView {
        ConfigView {
            max_attempts: self.max_attempts as nat,
            initial_backoff: duration_nanos(self.initial_backoff),
            max_backoff: duration_nanos(self.max_backoff),
            base: self.base,
        }
    }
}

/// `aws_smithy_types::retry::RetryConfig`, which a client is configured with. Nothing of
/// its inside is known here: only its two getters below are used.
#[verifier::external_type_specification]
#[verifier::external_body]
pub struct ExRetryConfig(RetryConfig);

/// The attempt ceiling that a `RetryConfig` holds: what `RetryConfig::max_attempts`
/// returns.
pub uninterp spec fn retry_config_max_attempts(conf: RetryConfig) -> u32;

/// The backoff unit that a `RetryConfig` holds: what `RetryConfig::initial_backoff`
/// returns.
pub uninterp spec fn retry_config_initial_backoff(conf: RetryConfig) -> Duration;

/// `RetryConfig::max_attempts` reads the field of that name. The type's builders store
/// whatever they are given, so the number may be zero.
pub assume_specification[ RetryConfig::max_attempts ](conf: &RetryConfig) -> (max_attempts: u32)
    ensures
        max_attempts == retry_config_max_attempts(*conf),
;

/// `RetryConfig::initial_backoff` reads the field of that name.
pub assume_specification[ RetryConfig::initial_backoff ](conf: &RetryConfig) -> (initial_backoff:
    Duration)
    ensures
        initial_backoff == retry_config_initial_backoff(*conf),
;

impl Config {
    /// Every configuration allows at least one attempt.
    #[verifier::type_invariant]
    pub open spec fn inv(self) -> bool {
        self@.valid()
    }

    /// Replaces the source of the jitter factor.
    ///
    /// By default every backoff is scaled by a fresh random factor below one. A fixed
    /// factor makes the delays predictable, which helps in tests.
    pub fn with_base(self, base: JitterBase) -> (config: Config)
        ensures
            config@ == (ConfigView { base, ..self@ }),
    {
        proof {
            use_type_invariant(&self);
        }
        Config { base, ..self }
    }

    /// Replaces the number of attempts that a request may make, the first one included.
    ///
    /// With `1`, retries are disabled.
    pub fn with_max_attempts(self, max_attempts: u32) -> (config: Config)
        requires
            max_attempts >= 1,
        ensures
            config@ == (ConfigView { max_attempts: max_attempts as nat, ..self@ }),
    {
        Config { max_attempts, ..self }
    }

    /// Replaces the backoff unit, which is one second by default.
    ///
    /// With a unit of 30 milliseconds, the first retry comes after at most 30 milliseconds,
    /// the second after at most 60, the third after at most 120.
    pub fn with_initial_backoff(self, initial_backoff: Duration) -> (config: Config)
        ensures
            config@ == (ConfigView { initial_backoff: duration_nanos(initial_backoff), ..self@ }),
    {
        proof {
            use_type_invariant(&self);
        }
        Config { initial_backoff, ..self }
    }

    /// Replaces the ceiling that no backoff exceeds, which is twenty seconds by default.
    pub fn with_max_backoff(self, max_backoff: Duration) -> (config: Config)
        ensures
            config@ == (ConfigView { max_backoff: duration_nanos(max_backoff), ..self@ }),
    {
        proof {
            use_type_invariant(&self);
        }
        Config { max_backoff, ..self }
    }

    /// Whether this configuration allows any retry.
    pub fn has_retry(&self) -> (enabled: bool)
        ensures
            enabled == (self@.max_attempts > 1),
    {
        self.max_attempts > 1
    }

    /// The attempts that a request may make, the first one included.
    pub fn max_attempts(&self) -> (max_attempts: u32)
        ensures
            max_attempts == self@.max_attempts,
    {
        self.max_attempts
    }

    /// The backoff unit.
    pub fn initial_backoff(&self) -> (initial_backoff: Duration)
        ensures
            duration_nanos(initial_backoff) == self@.initial_backoff,
    {
        self.initial_backoff
    }

    /// The ceiling that no backoff exceeds.
    pub fn max_backoff(&self) -> (max_backoff: Duration)
        ensures
            duration_nanos(max_backoff) == self@.max_backoff,
    {
        self.max_backoff
    }

    /// The source of the jitter factor.
    pub fn base(&self) -> (base: JitterBase)
        ensures
            base == self@.base,
    {
        self.base
    }

    /// The default configuration with the attempt ceiling and the backoff unit of `conf`.
    ///
    /// Returns `None` exactly where `conf` allows no attempt at all.
    pub fn from_retry_config(conf: &RetryConfig) -> (config: Option<Config>)
        ensures
            config is None <==> retry_config_max_attempts(*conf) == 0,
            config matches Some(config) ==> config@ == (ConfigView {
                max_attempts: retry_config_max_attempts(*conf) as nat,
                initial_backoff: duration_nanos(retry_config_initial_backoff(*conf)),
                ..ConfigView::defaults()
            }),
    {
        let max_attempts: u32 = conf.max_attempts();
        if max_attempts == 0 {
            return None;
        }
        Some(
            Config::default().with_max_attempts(max_attempts).with_initial_backoff(
                conf.initial_backoff(),
            ),
        )
    }
}

impl Default for Config {
    /// Three attempts, a backoff unit of one second, a ceiling of twenty seconds and random
    /// jitter.
    fn default() -> (config: Config)
        ensures
            config@ == ConfigView::defaults(),
    {
        Config {
            max_attempts: MAX_ATTEMPTS,
            max_backoff: Duration::new(20, 0),
            // by default, every backoff gets a fresh random factor
            base: JitterBase::Random,
            initial_backoff: Duration::new(1, 0),
        }
    }
}

} // verus!
