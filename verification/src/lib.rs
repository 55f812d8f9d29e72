//! A unified chat-completion client core for multiple LLM providers.
//!
//! The crate models one canonical request/response shape and translates it to
//! and from two provider wire protocols, decodes incremental event streams,
//! classifies failures for retry with exponential backoff, and keeps the
//! bookkeeping state behind operational telemetry.  All decision logic is
//! verified; network transport and JSON text encoding are left to a thin
//! unverified shell around this library.

pub mod client;
pub mod config;
pub mod error;
pub mod models;
pub mod providers;
pub mod retry;
pub mod streaming;
pub mod utils;
pub mod types;
