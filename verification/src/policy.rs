//! The policy that a client keeps, and from which each request gets its handler.

use crate::config::{Config, ConfigView};
use crate::handler::{RetryHandler, RetryHandlerView};
use vstd::prelude::*;

verus! {

/// A policy instantiator.
///
/// Implementors are policy factories: they make a new retry policy for each request, so
/// that a policy can have state of its own next to what all requests share. `S` is the type
/// of the sleeper that a policy waits with.
pub trait NewRequestPolicy<S> where Self::Policy: Send + Sync {
    /// The type of the per-request policy.
    type Policy;

    /// Makes the policy for a new request.
    fn new_request_policy(&self, sleep_impl: Option<S>) -> Self::Policy;
}

/// The standard retry strategy: exponential backoff with jitter, up to a number of
/// attempts.
///
/// A `Standard` belongs to a client. For each request, ask it for a handler with
/// [`new_request_policy`](NewRequestPolicy::new_request_policy).
#[derive(Clone, Copy, Debug)]
pub struct Standard {
    config: Config,
}

impl View for Standard {
    type V = ConfigView;

    /// The configuration that the handlers are made with.
    closed spec fn view(&self) -> ConfigView {
        self.config@
    }
}

impl Standard {
    /// Constructs a standard retry policy from the given configuration.
    pub fn new(config: Config) -> (policy: Self)
        ensures
            policy@ == config@,
    {
        Self { config }
    }

    /// Sets the configuration of this retry policy. Handlers made before keep theirs.
    pub fn with_config(&mut self, config: Config) -> (policy: &mut Self)
        ensures
            policy@ == config@,
            *final(self) == *final(policy),
    {
        self.config = config;
        self
    }
}

impl<S: Clone + Send + Sync> NewRequestPolicy<S> for Standard {
    type Policy = RetryHandler<S>;

    /// The handler for a request whose first attempt has just been made: one attempt on its
    /// count, this policy's configuration, and the given sleeper.
    fn new_request_policy(&self, sleep_impl: Option<S>) -> (handler: RetryHandler<S>)
        ensures
            handler@ == (RetryHandlerView { attempts: 1, config: self@, sleep_impl }),
    {
        RetryHandler::new(self.config, sleep_impl)
    }
}

impl Default for Standard {
    fn default() -> (policy: Self)
        ensures
            policy@ == ConfigView::defaults(),
    {
        Self::new(Config::default())
    }
}

} // verus!
