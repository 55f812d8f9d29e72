//! The error taxonomy and the predicates that drive retry decisions.

use vstd::prelude::*;

verus! {

/// A missing environment variable, reported by the configuration layer.
#[derive(Debug, Clone, PartialEq)]
pub struct EnvVarError {
    /// Name of the environment variable that is missing.
    pub var: String,
    /// Optional instructions to help the user get a valid value.
    pub instructions: Option<String>,
}

/// Every failure the client surfaces.
///
/// HTTP statuses are carried as their numeric code, durations as
/// milliseconds.  Lower-level transport and serialization failures are
/// carried as their rendered message under `Transport` and `Serialization`.
/// In `RetryLimit(attempts, last_status)` a `last_status` of `0` means that
/// no HTTP status was observed among the retried failures.
#[derive(Debug, Clone, PartialEq)]
pub enum ModelError {
    /// Stream disconnected before completion.
    Stream(String),
    /// Request timed out after the carried number of milliseconds.
    Timeout(u64),
    /// Unexpected HTTP status code, with the response body as context.
    UnexpectedStatus(u16, String),
    /// Retry limit exceeded: attempt count and last observed status.
    RetryLimit(u32, u16),
    /// Rate limit exceeded.
    RateLimit(String),
    /// Context window exceeded: input tokens and the maximum.
    ContextWindowExceeded(u32, u32),
    /// Authentication failed.
    Authentication(String),
    /// Invalid request parameters.
    InvalidRequest(String),
    /// Provider-specific failure not otherwise classified.
    Provider(String),
    /// Model not found or not available.
    ModelNotFound(String),
    /// Function calling failure.
    FunctionCall(String),
    /// Token counting failure.
    TokenCount(String),
    /// Configuration failure.
    Configuration(String),
    /// Missing environment variable.
    EnvVar(EnvVarError),
    /// Transport-level failure (connection, I/O, URL) by its message.
    Transport(String),
    /// Serialization or deserialization failure by its message.
    Serialization(String),
}

/// The result type used throughout the client.
pub type ModelResult<T> = Result<T, ModelError>;

/// Whether `status` is an HTTP server error (5xx).
pub open spec fn spec_is_server_error(status: u16) -> bool {
    500 <= status <= 599
}

/// Whether a failure is transient and eligible for automatic re-attempt:
/// mid-transfer disconnection, timeout, a rate-limit signal, or an HTTP
/// 5xx or 429 status.
pub open spec fn spec_is_retryable(e: ModelError) -> bool {
    match e {
        ModelError::Stream(_) => true,
        ModelError::Timeout(_) => true,
        ModelError::RateLimit(_) => true,
        ModelError::UnexpectedStatus(status, _) => spec_is_server_error(status) || status == 429,
        _ => false,
    }
}

/// Whether a failure is the caller's fault and must never be retried.
pub open spec fn spec_is_client_error(e: ModelError) -> bool {
    match e {
        ModelError::Authentication(_) => true,
        ModelError::InvalidRequest(_) => true,
        ModelError::ModelNotFound(_) => true,
        ModelError::ContextWindowExceeded(_, _) => true,
        ModelError::Configuration(_) => true,
        ModelError::EnvVar(_) => true,
        _ => false,
    }
}

/// The HTTP status a failure carries, if any.
pub open spec fn spec_status_code(e: ModelError) -> Option<u16> {
    match e {
        ModelError::UnexpectedStatus(status, _) => Some(status),
        ModelError::RetryLimit(_, status) => Some(status),
        _ => None,
    }
}

impl ModelError {
    /// Check if the error is retryable.
    pub fn is_retryable(&self) -> (r: bool)
        ensures
            r == spec_is_retryable(*self),
    {
        match self {
            ModelError::Stream(_) => true,
            ModelError::Timeout(_) => true,
            ModelError::RateLimit(_) => true,
            ModelError::UnexpectedStatus(status, _) => (500 <= *status && *status <= 599) || *status
                == 429,
            _ => false,
        }
    }

    /// Check if the error is a client error (should not retry).
    pub fn is_client_error(&self) -> (r: bool)
        ensures
            r == spec_is_client_error(*self),
    {
        match self {
            ModelError::Authentication(_) => true,
            ModelError::InvalidRequest(_) => true,
            ModelError::ModelNotFound(_) => true,
            ModelError::ContextWindowExceeded(_, _) => true,
            ModelError::Configuration(_) => true,
            ModelError::EnvVar(_) => true,
            _ => false,
        }
    }

    /// Get the HTTP status code if available.
    pub fn status_code(&self) -> (r: Option<u16>)
        ensures
            r == spec_status_code(*self),
    {
        match self {
            ModelError::UnexpectedStatus(status, _) => Some(*status),
            ModelError::RetryLimit(_, status) => Some(*status),
            _ => None,
        }
    }
}

/// No failure is both transient and the caller's fault: the two retry
/// predicates never select the same error, so the retry decision is
/// unambiguous.
pub proof fn lemma_retryable_never_client_error(e: ModelError)
    ensures
        !(spec_is_retryable(e) && spec_is_client_error(e)),
{
}

} // verus!
