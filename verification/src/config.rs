//! Configuration shapes the client is constructed from.

use vstd::prelude::*;
use crate::types::{ModelId, ProviderId};

verus! {

/// Which backend answers, and its overrides.
#[derive(Debug)]
pub struct ProviderConfig {
    pub id: ProviderId,
    pub api_base: Option<String>,
    pub api_key: Option<String>,
}

/// Model selection and default sampling parameters.
///
/// As in the canonical request, floating-point parameters are carried as
/// their IEEE-754 bit patterns.
#[derive(Debug)]
pub struct ModelConfig {
    pub id: ModelId,
    /// IEEE-754 bit pattern of the sampling temperature.
    pub temperature_bits: Option<u32>,
    pub max_tokens: Option<u32>,
    /// IEEE-754 bit pattern of the nucleus-sampling threshold.
    pub top_p_bits: Option<u32>,
    pub n: Option<u32>,
    pub stop: Option<Vec<String>>,
}

/// Everything needed to construct a client.
#[derive(Debug)]
pub struct ClientConfig {
    pub provider: ProviderConfig,
    pub model: ModelConfig,
    pub api_key: Option<String>,
    pub api_base: Option<String>,
    pub timeout_secs: Option<u64>,
}

} // verus!
