//! Retry decisions with exponential backoff for transient failures.
//!
//! The library decides whether a failed operation is tried again and after
//! which delay; running the operation and sleeping are the caller's part.
//! Delays are whole milliseconds.

use vstd::prelude::*;
use crate::backoff::{
    backoff, capped_backoff, lemma_backoff_is_monotone, lemma_backoff_start,
    lemma_backoff_whole_factor, power,
};
use crate::error::BooruError;

verus! {

/// Default number of retries.
pub const DEFAULT_MAX_RETRIES: u32 = 3;

/// Default delay before the first retry, in milliseconds.
pub const DEFAULT_INITIAL_DELAY_MS: u64 = 100;

/// Default cap of the delay between retries, in milliseconds.
pub const DEFAULT_MAX_DELAY_MS: u64 = 5000;

/// Default backoff factor, in hundredths: each delay is twice the one before.
pub const DEFAULT_BACKOFF_PERCENT: u32 = 200;

/// Configuration for retry behavior.
#[derive(Debug, Clone, Copy, PartialEq, Eq)]
pub struct RetryConfig {
    /// Maximum number of retry attempts (0 = no retries).
    pub max_retries: u32,
    /// Delay before the first retry, in milliseconds.
    pub initial_delay_ms: u64,
    /// Maximum delay between retries, in milliseconds.
    pub max_delay_ms: u64,
    /// Factor by which the delay grows from one retry to the next, in
    /// hundredths (`200` doubles it, `150` multiplies it by one and a half).
    pub backoff_percent: u32,
}

/// The backoff schedule for a whole factor: attempt `n >= 1` waits for the
/// initial delay times the factor to the power of `n - 1`, or for the
/// maximum delay where that is shorter. Attempt 0 does not wait.
pub proof fn lemma_delay_schedule(config: RetryConfig, factor: nat, attempt: u32)
    requires
        config.backoff_percent == factor * 100,
        attempt >= 1,
    ensures
        config.delay(attempt) == if config.initial_delay_ms * power(factor, (attempt - 1) as nat)
            <= config.max_delay_ms {
            config.initial_delay_ms * power(factor, (attempt - 1) as nat)
        } else {
            config.max_delay_ms as int
        },
        config.delay(0) == 0,
{
    lemma_backoff_whole_factor(config.initial_delay_ms as nat, factor, (attempt - 1) as nat);
}

/// With a factor of one or more and an initial delay within the maximum,
/// every retry waits at least for the initial delay and at most for the
/// maximum, and no retry waits less than the one before it.
pub proof fn lemma_delay_grows(config: RetryConfig, attempt: u32, later: u32)
    requires
        config.backoff_percent >= 100,
        config.initial_delay_ms <= config.max_delay_ms,
        1 <= attempt <= later,
    ensures
        config.initial_delay_ms <= config.delay(attempt) <= config.max_delay_ms,
        config.delay(attempt) <= config.delay(later),
{
    let initial = config.initial_delay_ms as nat;
    let percent = config.backoff_percent as nat;
    lemma_backoff_start(initial, percent);
    lemma_backoff_is_monotone(initial, percent, 0, (attempt - 1) as nat);
    lemma_backoff_is_monotone(initial, percent, (attempt - 1) as nat, (later - attempt) as nat);
    assert((attempt - 1) as nat + (later - attempt) as nat == (later - 1) as nat);
}

impl RetryConfig {
    /// The delay before the attempt with the given number, in milliseconds.
    ///
    /// Attempt 0 is the first try and is not delayed. Attempt `n >= 1` waits
    /// for the initial delay times the backoff factor to the power of
    /// `n - 1`, rounded down once to whole milliseconds. No delay is longer
    /// than the maximum delay.
    pub open spec fn delay(self, attempt: u32) -> nat {
        if attempt == 0 {
            0
        } else {
            let grown = backoff(
                self.initial_delay_ms as nat,
                self.backoff_percent as nat,
                (attempt - 1) as nat,
            );
            if grown <= self.max_delay_ms {
                grown
            } else {
                self.max_delay_ms as nat
            }
        }
    }

    /// The configuration with the given number of retries and the default
    /// delays and factor.
    pub open spec fn with_defaults(max_retries: u32) -> RetryConfig {
        RetryConfig {
            max_retries,
            initial_delay_ms: DEFAULT_INITIAL_DELAY_MS,
            max_delay_ms: DEFAULT_MAX_DELAY_MS,
            backoff_percent: DEFAULT_BACKOFF_PERCENT,
        }
    }

    /// Creates a new retry configuration with the specified max retries and
    /// the default delays and factor.
    #[must_use]
    pub fn new(max_retries: u32) -> (r: Self)
        ensures
            r == Self::with_defaults(max_retries),
    {
        RetryConfig {
            max_retries,
            initial_delay_ms: DEFAULT_INITIAL_DELAY_MS,
            max_delay_ms: DEFAULT_MAX_DELAY_MS,
            backoff_percent: DEFAULT_BACKOFF_PERCENT,
        }
    }

    /// Disables retries.
    #[must_use]
    pub fn no_retry() -> (r: Self)
        ensures
            r == Self::with_defaults(0),
    {
        Self::new(0)
    }

    /// Sets the initial delay, in milliseconds.
    #[must_use]
    pub fn with_initial_delay(self, delay_ms: u64) -> (r: Self)
        ensures
            r == (RetryConfig { initial_delay_ms: delay_ms, ..self }),
    {
        RetryConfig { initial_delay_ms: delay_ms, ..self }
    }

    /// Sets the maximum delay, in milliseconds.
    #[must_use]
    pub fn with_max_delay(self, delay_ms: u64) -> (r: Self)
        ensures
            r == (RetryConfig { max_delay_ms: delay_ms, ..self }),
    {
        RetryConfig { max_delay_ms: delay_ms, ..self }
    }

    /// Sets the backoff multiplier, in hundredths.
    #[must_use]
    pub fn with_backoff_factor(self, percent: u32) -> (r: Self)
        ensures
            r == (RetryConfig { backoff_percent: percent, ..self }),
    {
        RetryConfig { backoff_percent: percent, ..self }
    }

    /// Calculates the delay for a given attempt number, in milliseconds.
    pub fn delay_for_attempt(&self, attempt: u32) -> (r: u64)
        ensures
            r == self.delay(attempt),
            r <= self.max_delay_ms,
            attempt == 0 ==> r == 0,
    {
        if attempt == 0 {
            return 0;
        }
        capped_backoff(self.initial_delay_ms, self.backoff_percent, attempt - 1, self.max_delay_ms)
    }

    /// Whether a failed attempt is followed by another one.
    pub open spec fn retries(self, attempt: u32, error: BooruError) -> bool {
        attempt < self.max_retries && retryable(error)
    }

    /// Decides what follows the failure of the attempt with the given number
    /// (0 for the first try): `None` to give up and report `error`, or the
    /// number of the next attempt and the milliseconds to wait before it.
    ///
    /// A failure is retried while retries are left and the error is one that
    /// a retry can mend; the decision rests on the error's kind alone.
    pub fn after_failure(&self, attempt: u32, error: &BooruError) -> (r: Option<Retry>)
        ensures
            match r {
                Some(retry) => {
                    &&& self.retries(attempt, *error)
                    &&& retry.attempt == attempt + 1
                    &&& retry.delay_ms == self.delay(retry.attempt)
                },
                None => !self.retries(attempt, *error),
            },
    {
        if attempt >= self.max_retries || !is_retryable(error) {
            return None;
        }
        let next = attempt + 1;
        Some(Retry { attempt: next, delay_ms: self.delay_for_attempt(next) })
    }
}

impl Default for RetryConfig {
    fn default() -> (r: Self)
        ensures
            r == RetryConfig::with_defaults(DEFAULT_MAX_RETRIES),
    {
        RetryConfig::new(DEFAULT_MAX_RETRIES)
    }
}

/// The next attempt of an operation that failed.
#[derive(Debug, Clone, Copy, PartialEq, Eq)]
pub struct Retry {
    /// The number of the attempt: 1 for the first retry.
    pub attempt: u32,
    /// The milliseconds to wait before the attempt.
    pub delay_ms: u64,
}

/// Whether a status is one of the server errors (5xx).
pub open spec fn is_server_error(status: u16) -> bool {
    500 <= status < 600
}

/// Whether an error is worth a retry.
///
/// A transport failure is: when it is a timeout or a failure to connect;
/// else, when it came with a status, if that is a server error; else, if it
/// is tied to the request itself. A rate-limit signal is. Nothing else is:
/// no retry mends a parse error, a missing post, an empty response, a bad
/// URL, a refusal of credentials, an invalid tag, a tag limit or a local
/// I/O error.
pub open spec fn retryable(error: BooruError) -> bool {
    match error {
        BooruError::Request(e) => if e.timeout || e.connect {
            true
        } else {
            match e.status {
                Some(status) => is_server_error(status),
                None => e.request,
            }
        },
        BooruError::RateLimited => true,
        _ => false,
    }
}

/// Determines if an error is retryable.
pub fn is_retryable(error: &BooruError) -> (r: bool)
    ensures
        r == retryable(*error),
{
    match error {
        BooruError::Request(e) => {
            if e.timeout || e.connect {
                return true;
            }
            match e.status {
                Some(status) => 500 <= status && status < 600,
                None => e.request,
            }
        },
        BooruError::RateLimited => true,
        _ => false,
    }
}

} // verus!
