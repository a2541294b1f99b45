//! Per-request retry decisions for a remote-call client.
//!
//! After every attempt the transport classifies the result and asks the request's
//! [`RetryHandler`] whether to try again. The handler answers with nothing, or with a
//! delay and the handler to consult after the next attempt. It never sleeps and never
//! changes: each granted retry yields a new value.
//!
//! - [`Standard`] is the factory that a client keeps; it makes one [`RetryHandler`] per
//!   request.
//! - [`Config`] holds the tunables: attempt ceiling, backoff unit, backoff ceiling and the
//!   source of jitter.
//! - [`calculate_exponential_backoff`] is the bounded exponential delay, in exact integer
//!   arithmetic on nanoseconds.

pub mod backoff;
pub mod config;
pub mod handler;
pub mod jitter;
pub mod laws;
pub mod policy;
pub mod time;

pub use backoff::{calculate_exponential_backoff, exponential_backoff};
pub use config::{Config, ConfigView, MAX_ATTEMPTS};
pub use handler::{
    check_send, NoRetry, RequestLocalRetryState, RetryHandler, RetryHandlerView,
};
pub use jitter::{Jitter, JitterBase, JITTER_SCALE};
pub use policy::{NewRequestPolicy, Standard};
pub use time::{duration_from_nanos, total_nanos};
