//! How an event source decides on reconnections.
use core::time::Duration;
use vstd::prelude::*;

use crate::error::Error;

verus! {

/// Decides whether and when an event source tries again.
///
/// Nothing is promised of an implementation: it may use chance, or the time.
pub trait RetryPolicy {
    /// The delay after which to reconnect on an error, or nothing to give up. With the error comes
    /// the last retry, where there was one since the source was last connected: a number and the
    /// delay that the source waited for. The number is always one: retries are not counted.
    fn retry(&self, error: &Error, last_retry: Option<(usize, Duration)>) -> Option<Duration>;

    /// Takes the reconnection time that the server asks for.
    fn set_reconnection_time(&mut self, duration: Duration);
}

/// `answer` is one that `policy` may give on `error` after `last_retry`.
pub open spec fn answers<P: RetryPolicy>(
    policy: P,
    error: Error,
    last_retry: Option<(usize, Duration)>,
    answer: Option<Duration>,
) -> bool {
    call_ensures(P::retry, (&policy, &error, last_retry), answer)
}

} // verus!
