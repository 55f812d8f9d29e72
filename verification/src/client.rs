//! Client construction decisions and the instrumentation bookkeeping.
//!
//! The network transport lives outside this library.  What is verified here
//! is everything the facade decides: which adapter a configuration selects,
//! which credential and base URL apply, and how the telemetry counters and
//! gauges move around every call.

use vstd::prelude::*;
use vstd::string::*;
use crate::config::ClientConfig;
use crate::error::ModelError;
use crate::types::TokenUsage;
use crate::utils::str_eq;

verus! {

/// The two wire protocols a client can speak.
#[derive(Debug, Clone, Copy, PartialEq, Eq, Structural)]
pub enum ProviderKind {
    OpenAi,
    Anthropic,
}

/// Transport-free result of client construction: the adapter selected and
/// the resolved credential and base URL it will use.
#[derive(Debug)]
pub struct ResolvedProvider {
    pub kind: ProviderKind,
    pub api_key: String,
    pub api_base: String,
}

/// Which adapter a provider identifier selects.
pub open spec fn spec_provider_kind(id: Seq<char>) -> Option<ProviderKind> {
    if id == "openai"@ {
        Some(ProviderKind::OpenAi)
    } else if id == "anthropic"@ {
        Some(ProviderKind::Anthropic)
    } else {
        None
    }
}

/// The credential that applies: the client-level key wins over the
/// provider-level one.
pub open spec fn spec_effective_key(cfg: ClientConfig) -> Option<Seq<char>> {
    match cfg.api_key {
        Some(k) => Some(k@),
        None => match cfg.provider.api_key {
            Some(k) => Some(k@),
            None => None,
        },
    }
}

/// The default base URL of each provider.
pub open spec fn spec_default_base(kind: ProviderKind) -> Seq<char> {
    match kind {
        ProviderKind::OpenAi => "https://api.openai.com/v1"@,
        ProviderKind::Anthropic => "https://api.anthropic.com/v1"@,
    }
}

/// The base URL that applies: client-level, else provider-level, else the
/// provider's default.
pub open spec fn spec_effective_base(cfg: ClientConfig, kind: ProviderKind) -> Seq<char> {
    match cfg.api_base {
        Some(b) => b@,
        None => match cfg.provider.api_base {
            Some(b) => b@,
            None => spec_default_base(kind),
        },
    }
}

/// The message of the `Configuration` error for a missing credential.
pub open spec fn spec_missing_key_message(kind: ProviderKind) -> Seq<char> {
    match kind {
        ProviderKind::OpenAi => "Missing OpenAI API key"@,
        ProviderKind::Anthropic => "Missing Anthropic API key"@,
    }
}

/// Decides everything client construction decides: the adapter, and the
/// credential and base URL it will use.  An unrecognized provider
/// identifier and a recognized provider without a credential are both
/// `Configuration` errors; nothing else fails.
pub fn resolve_provider(cfg: &ClientConfig) -> (r: Result<ResolvedProvider, ModelError>)
    ensures
        match spec_provider_kind(cfg.provider.id@) {
            Some(kind) => match spec_effective_key(*cfg) {
                Some(key) => r matches Ok(p) && p.kind == kind && p.api_key@ == key
                    && p.api_base@ == spec_effective_base(*cfg, kind),
                None => r matches Err(e) && e matches ModelError::Configuration(m) && m@
                    == spec_missing_key_message(kind),
            },
            None => r matches Err(e) && e matches ModelError::Configuration(m) && m@
                == "Unknown provider: "@ + cfg.provider.id@,
        },
{
    let kind: Option<ProviderKind> = if str_eq(cfg.provider.id.as_str(), "openai") {
        Some(ProviderKind::OpenAi)
    } else if str_eq(cfg.provider.id.as_str(), "anthropic") {
        Some(ProviderKind::Anthropic)
    } else {
        None
    };
    match kind {
        None => Err(
            ModelError::Configuration(
                String::from_str("Unknown provider: ").concat(cfg.provider.id.as_str()),
            ),
        ),
        Some(k) => {
            let key: Option<String> = match &cfg.api_key {
                Some(s) => Some(s.clone()),
                None => match &cfg.provider.api_key {
                    Some(s) => Some(s.clone()),
                    None => None,
                },
            };
            match key {
                None => {
                    let message: String = match k {
                        ProviderKind::OpenAi => String::from_str("Missing OpenAI API key"),
                        ProviderKind::Anthropic => String::from_str("Missing Anthropic API key"),
                    };
                    Err(ModelError::Configuration(message))
                },
                Some(api_key) => {
                    let api_base: String = match &cfg.api_base {
                        Some(b) => b.clone(),
                        None => match &cfg.provider.api_base {
                            Some(b) => b.clone(),
                            None => match k {
                                ProviderKind::OpenAi => String::from_str(
                                    "https://api.openai.com/v1",
                                ),
                                ProviderKind::Anthropic => String::from_str(
                                    "https://api.anthropic.com/v1",
                                ),
                            },
                        },
                    };
                    Ok(ResolvedProvider { kind: k, api_key, api_base })
                },
            }
        },
    }
}

// ---------------------------------------------------------------------------
// Instrumentation bookkeeping
// ---------------------------------------------------------------------------

/// `a + b`, clamped at the top of `u64`.
pub open spec fn spec_sat_add(a: u64, b: u64) -> u64 {
    if a + b <= u64::MAX {
        (a + b) as u64
    } else {
        u64::MAX
    }
}

/// `a - b`, clamped at zero.
pub open spec fn spec_sat_sub(a: u64, b: u64) -> u64 {
    if a >= b {
        (a - b) as u64
    } else {
        0
    }
}

/// The counters and the gauge kept around every adapter invocation.
/// Counters are monotonic and clamp at the top of `u64` instead of
/// wrapping; the in-flight gauge moves by exactly one around each call.
#[derive(Debug, Clone, Copy, PartialEq, Eq, Structural)]
pub struct MetricsState {
    pub inflight: u64,
    pub success_total: u64,
    pub error_total: u64,
    pub prompt_tokens_total: u64,
    pub completion_tokens_total: u64,
}

/// What one completed call (its begin and its end together) does to the
/// state: the gauge is back at its baseline, the outcome counter for the
/// observed result moved up by one, and on success the token counters
/// moved up by the reported usage.
pub open spec fn spec_complete_call(
    m: MetricsState,
    success: bool,
    prompt: u64,
    completion: u64,
) -> MetricsState {
    MetricsState {
        inflight: m.inflight,
        success_total: if success {
            spec_sat_add(m.success_total, 1)
        } else {
            m.success_total
        },
        error_total: if success {
            m.error_total
        } else {
            spec_sat_add(m.error_total, 1)
        },
        prompt_tokens_total: if success {
            spec_sat_add(m.prompt_tokens_total, prompt)
        } else {
            m.prompt_tokens_total
        },
        completion_tokens_total: if success {
            spec_sat_add(m.completion_tokens_total, completion)
        } else {
            m.completion_tokens_total
        },
    }
}

/// The prompt tokens a reported usage contributes.
pub open spec fn spec_usage_prompt(usage: Option<&TokenUsage>) -> u64 {
    match usage {
        Some(u) => u.prompt_tokens as u64,
        None => 0,
    }
}

/// The completion tokens a reported usage contributes.
pub open spec fn spec_usage_completion(usage: Option<&TokenUsage>) -> u64 {
    match usage {
        Some(u) => u.completion_tokens as u64,
        None => 0,
    }
}

impl MetricsState {
    pub fn new() -> (r: Self)
        ensures
            r == (MetricsState {
                inflight: 0,
                success_total: 0,
                error_total: 0,
                prompt_tokens_total: 0,
                completion_tokens_total: 0,
            }),
    {
        MetricsState {
            inflight: 0,
            success_total: 0,
            error_total: 0,
            prompt_tokens_total: 0,
            completion_tokens_total: 0,
        }
    }

    /// Raises the in-flight gauge as a call begins.
    pub fn begin_call(&mut self)
        requires
            old(self).inflight < u64::MAX,
        ensures
            *final(self) == (MetricsState { inflight: (old(self).inflight + 1) as u64, ..*old(
                self,
            ) }),
    {
        self.inflight = self.inflight + 1;
    }

    /// Lowers the in-flight gauge and counts the outcome as a call ends.
    /// Together with `begin_call` this performs exactly
    /// `spec_complete_call` on the state.
    pub fn end_call(&mut self, success: bool, usage: Option<&TokenUsage>)
        requires
            old(self).inflight >= 1,
        ensures
            *final(self) == (MetricsState {
                inflight: (old(self).inflight - 1) as u64,
                ..spec_complete_call(
                    *old(self),
                    success,
                    spec_usage_prompt(usage),
                    spec_usage_completion(usage),
                )
            }),
    {
        self.inflight = self.inflight - 1;
        if success {
            self.success_total = self.success_total.saturating_add(1);
            match usage {
                Some(u) => {
                    self.prompt_tokens_total = self.prompt_tokens_total.saturating_add(
                        u.prompt_tokens as u64,
                    );
                    self.completion_tokens_total = self.completion_tokens_total.saturating_add(
                        u.completion_tokens as u64,
                    );
                },
                None => {},
            }
        } else {
            self.error_total = self.error_total.saturating_add(1);
        }
    }
}

/// One completed unary call, as the balance law records it.
pub struct CallRecord {
    pub success: bool,
    pub prompt_tokens: u64,
    pub completion_tokens: u64,
}

/// The state after a sequence of completed calls.
pub open spec fn spec_after_calls(m: MetricsState, calls: Seq<CallRecord>) -> MetricsState
    decreases calls.len(),
{
    if calls.len() == 0 {
        m
    } else {
        spec_after_calls(
            spec_complete_call(
                m,
                calls[0].success,
                calls[0].prompt_tokens,
                calls[0].completion_tokens,
            ),
            calls.skip(1),
        )
    }
}

/// Law: after any number of completed unary calls — successes and errors
/// mixed arbitrarily — the in-flight gauge is back at its baseline.  This
/// holds unconditionally: a completed call never moves the gauge.
pub proof fn lemma_inflight_balance(m: MetricsState, calls: Seq<CallRecord>)
    ensures
        spec_after_calls(m, calls).inflight == m.inflight,
    decreases calls.len(),
{
    if calls.len() > 0 {
        lemma_inflight_balance(
            spec_complete_call(
                m,
                calls[0].success,
                calls[0].prompt_tokens,
                calls[0].completion_tokens,
            ),
            calls.skip(1),
        );
    }
}

/// Law: after any number of completed unary calls, the two outcome
/// counters together grew by exactly the number of calls.  The bound in
/// `requires` is forced by the machine: the counters clamp at the top of
/// `u64` instead of wrapping, so exactness holds while they cannot clamp.
pub proof fn lemma_instrumentation_balance(m: MetricsState, calls: Seq<CallRecord>)
    requires
        m.success_total + m.error_total + calls.len() <= u64::MAX,
    ensures
        spec_after_calls(m, calls).inflight == m.inflight,
        spec_after_calls(m, calls).success_total + spec_after_calls(m, calls).error_total
            == m.success_total + m.error_total + calls.len(),
    decreases calls.len(),
{
    if calls.len() > 0 {
        let m1 = spec_complete_call(
            m,
            calls[0].success,
            calls[0].prompt_tokens,
            calls[0].completion_tokens,
        );
        assert(m1.success_total + m1.error_total == m.success_total + m.error_total + 1);
        lemma_instrumentation_balance(m1, calls.skip(1));
    }
}

// ---------------------------------------------------------------------------
// Stream timing tap
// ---------------------------------------------------------------------------

/// What the tap reports for one observed chunk: the latency from the start
/// of the call to the first chunk, or the gap since the previous chunk.
#[derive(Debug, Clone, Copy, PartialEq, Eq, Structural)]
pub enum ChunkTiming {
    FirstToken(u64),
    Gap(u64),
}

/// Explicit state threaded through a streaming response to time its
/// chunks, in place of captured mutable variables.  Times are
/// milliseconds on whatever clock the caller reads; a clock that moves
/// backwards yields a zero duration, never an underflow.
#[derive(Debug, Clone, Copy, PartialEq, Eq, Structural)]
pub struct StreamTap {
    pub start_ms: u64,
    pub first_seen: bool,
    pub last_ms: u64,
}

impl StreamTap {
    pub fn new(start_ms: u64) -> (r: Self)
        ensures
            r == (StreamTap { start_ms, first_seen: false, last_ms: start_ms }),
    {
        StreamTap { start_ms, first_seen: false, last_ms: start_ms }
    }

    /// Observes one successful chunk at time `now_ms`: the first chunk
    /// reports first-token latency, every later one the inter-chunk gap.
    pub fn observe_chunk(&mut self, now_ms: u64) -> (t: ChunkTiming)
        ensures
            *final(self) == (StreamTap { first_seen: true, last_ms: now_ms, ..*old(self) }),
            t == if old(self).first_seen {
                ChunkTiming::Gap(spec_sat_sub(now_ms, old(self).last_ms))
            } else {
                ChunkTiming::FirstToken(spec_sat_sub(now_ms, old(self).start_ms))
            },
    {
        let t = if self.first_seen {
            ChunkTiming::Gap(now_ms.saturating_sub(self.last_ms))
        } else {
            ChunkTiming::FirstToken(now_ms.saturating_sub(self.start_ms))
        };
        self.first_seen = true;
        self.last_ms = now_ms;
        t
    }
}

} // verus!
