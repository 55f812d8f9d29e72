//! The retry and backoff controller.
//!
//! It wraps one adapter operation — a unary call, or the call that
//! establishes a stream, never individual stream items.  After each failed
//! attempt it refines the adapter's status reading into the taxonomy,
//! passes a non-retryable failure through unchanged at once, and otherwise
//! either schedules another attempt under exponential backoff with caller-
//! supplied jitter or, with the attempt budget spent, reports
//! `RetryLimit` with the last observed status.

use vstd::prelude::*;
use crate::client::spec_sat_add;
use crate::error::{spec_is_retryable, spec_status_code, ModelError};

verus! {

/// The bounds a controller works under.
#[derive(Debug, Clone, Copy, PartialEq, Eq, Structural)]
pub struct RetryPolicy {
    /// How many attempts may be made in all, the first one included.
    pub max_attempts: u32,
    /// Backoff before the second attempt, in milliseconds.
    pub base_delay_ms: u64,
    /// Ceiling on any single backoff delay, in milliseconds.
    pub max_delay_ms: u64,
}

impl Default for RetryPolicy {
    /// A small default budget: three attempts, half a second of initial
    /// backoff, delays capped at thirty seconds.
    fn default() -> (r: Self)
        ensures
            r == (RetryPolicy { max_attempts: 3, base_delay_ms: 500, max_delay_ms: 30000 }),
    {
        RetryPolicy { max_attempts: 3, base_delay_ms: 500, max_delay_ms: 30000 }
    }
}

/// What the caller must do after a failed attempt.
#[derive(Debug, PartialEq)]
pub enum RetryDecision {
    /// Wait the carried number of milliseconds, then attempt again.
    Retry(u64),
    /// Stop and surface the carried error.
    GiveUp(ModelError),
}

/// The retry layer's refinement of an adapter error.  Adapters surface
/// any non-success HTTP status as `UnexpectedStatus`; here, and only
/// here, well-known status codes become their taxonomy classes.  Every
/// other error passes through unchanged.
pub open spec fn spec_classify(e: ModelError) -> ModelError {
    match e {
        ModelError::UnexpectedStatus(status, body) => {
            if status == 401 || status == 403 {
                ModelError::Authentication(body)
            } else if status == 400 {
                ModelError::InvalidRequest(body)
            } else if status == 404 {
                ModelError::ModelNotFound(body)
            } else if status == 429 {
                ModelError::RateLimit(body)
            } else {
                ModelError::UnexpectedStatus(status, body)
            }
        },
        _ => e,
    }
}

/// Refines an adapter error into the taxonomy by its status code alone.
pub fn classify_error(e: ModelError) -> (r: ModelError)
    ensures
        r == spec_classify(e),
{
    match e {
        ModelError::UnexpectedStatus(status, body) => {
            if status == 401 || status == 403 {
                ModelError::Authentication(body)
            } else if status == 400 {
                ModelError::InvalidRequest(body)
            } else if status == 404 {
                ModelError::ModelNotFound(body)
            } else if status == 429 {
                ModelError::RateLimit(body)
            } else {
                ModelError::UnexpectedStatus(status, body)
            }
        },
        other => other,
    }
}

/// The exponential part of the backoff: the base delay doubled once per
/// completed attempt beyond the first, clamped at the cap.
pub open spec fn spec_backoff(base: u64, attempt: u32, cap: u64) -> u64
    decreases attempt,
{
    if attempt <= 1 {
        if base <= cap {
            base
        } else {
            cap
        }
    } else {
        let prev = spec_backoff(base, (attempt - 1) as u32, cap);
        if prev >= cap {
            cap
        } else if prev <= cap / 2 {
            (prev * 2) as u64
        } else {
            cap
        }
    }
}

/// The full delay before the attempt after `attempt` failures:
/// exponential backoff plus the caller's jitter, clamped at the cap.
pub open spec fn spec_retry_delay(policy: RetryPolicy, attempt: u32, jitter_ms: u64) -> u64 {
    let with_jitter = spec_sat_add(
        spec_backoff(policy.base_delay_ms, attempt, policy.max_delay_ms),
        jitter_ms,
    );
    if with_jitter <= policy.max_delay_ms {
        with_jitter
    } else {
        policy.max_delay_ms
    }
}

/// Computes the backoff delay.  The jitter is supplied by the caller —
/// randomness is not this library's business — and the result never
/// exceeds the policy's cap.
pub fn retry_delay_ms(policy: &RetryPolicy, attempt: u32, jitter_ms: u64) -> (r: u64)
    ensures
        r == spec_retry_delay(*policy, attempt, jitter_ms),
        r <= policy.max_delay_ms,
{
    let base = policy.base_delay_ms;
    let cap = policy.max_delay_ms;
    let mut d: u64 = if base <= cap {
        base
    } else {
        cap
    };
    let mut k: u32 = 1;
    while k < attempt
        invariant
            1 <= k,
            k <= attempt || k == 1,
            d == spec_backoff(base, k, cap),
        decreases attempt - k,
    {
        d = if d >= cap {
            cap
        } else if d <= cap / 2 {
            d * 2
        } else {
            cap
        };
        k = k + 1;
    }
    let with_jitter = d.saturating_add(jitter_ms);
    if with_jitter <= cap {
        with_jitter
    } else {
        cap
    }
}

/// The controller's running state: how many attempts have completed and
/// the last HTTP status observed among their failures (0 until one is
/// seen).
#[derive(Debug, Clone, Copy, PartialEq, Eq, Structural)]
pub struct RetryController {
    pub policy: RetryPolicy,
    pub attempts: u32,
    pub last_status: u16,
}

impl RetryController {
    pub fn new(policy: RetryPolicy) -> (r: Self)
        ensures
            r == (RetryController { policy, attempts: 0, last_status: 0 }),
    {
        RetryController { policy, attempts: 0, last_status: 0 }
    }

    /// Decides what follows one failed attempt.
    ///
    /// The error is classified by its status code; a non-retryable error
    /// passes through unchanged, however early it occurs.  A retryable
    /// error earns another attempt while the budget lasts, after the
    /// backoff delay; once the budget is spent, `RetryLimit` carries the
    /// attempt count and the last observed status instead of the
    /// original error.
    pub fn on_error(&mut self, e: ModelError, jitter_ms: u64) -> (d: RetryDecision)
        requires
            old(self).attempts < u32::MAX,
        ensures
            final(self).policy == old(self).policy,
            final(self).attempts == old(self).attempts + 1,
            final(self).last_status == (match spec_status_code(e) {
                Some(s) => s,
                None => old(self).last_status,
            }),
            ({
                let classified = spec_classify(e);
                let made = old(self).attempts + 1;
                &&& !spec_is_retryable(classified) ==> d == RetryDecision::GiveUp(classified)
                &&& (spec_is_retryable(classified) && made < old(self).policy.max_attempts) ==> d
                    == RetryDecision::Retry(spec_retry_delay(old(self).policy, made as u32, jitter_ms))
                &&& (spec_is_retryable(classified) && made >= old(self).policy.max_attempts) ==> d
                    == RetryDecision::GiveUp(
                    ModelError::RetryLimit(made as u32, final(self).last_status),
                )
            }),
    {
        self.attempts = self.attempts + 1;
        match e.status_code() {
            Some(s) => {
                self.last_status = s;
            },
            None => {},
        }
        let classified = classify_error(e);
        if !classified.is_retryable() {
            RetryDecision::GiveUp(classified)
        } else if self.attempts < self.policy.max_attempts {
            RetryDecision::Retry(retry_delay_ms(&self.policy, self.attempts, jitter_ms))
        } else {
            RetryDecision::GiveUp(ModelError::RetryLimit(self.attempts, self.last_status))
        }
    }
}

} // verus!
