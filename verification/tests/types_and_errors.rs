use model_client_rs::error::{EnvVarError, ModelError};
use model_client_rs::models::{ContentItem, ImageUrl};
use model_client_rs::types::{ModelId, ProviderId, RequestId, TokenUsage};

#[test]
fn token_usage_new_sums_totals() {
    let u = TokenUsage::new(10, 5);
    assert_eq!(u.prompt_tokens, 10);
    assert_eq!(u.completion_tokens, 5);
    assert_eq!(u.total_tokens, 15);
}

#[test]
fn token_usage_normalized_ignores_reported_total() {
    let u = TokenUsage::normalized(10, 5, 99);
    assert_eq!(u.total_tokens, 15);
    assert_eq!(u.prompt_tokens, 10);
    assert_eq!(u.completion_tokens, 5);
}

#[test]
fn token_usage_normalized_clamps_overflow() {
    let u = TokenUsage::normalized(u32::MAX, 2, 0);
    assert_eq!(u.total_tokens, u32::MAX);
}

#[test]
fn token_usage_default_is_zero() {
    let u = TokenUsage::default();
    assert_eq!((u.prompt_tokens, u.completion_tokens, u.total_tokens), (0, 0, 0));
}

#[test]
fn model_id_round_trip() {
    let id = ModelId::new("gpt-4o".to_string());
    assert_eq!(id.as_str(), "gpt-4o");
    assert_eq!(id.clone().into_inner(), "gpt-4o".to_string());
}

#[test]
fn provider_id_round_trip() {
    let id = ProviderId::new("openai".to_string());
    assert_eq!(id.as_str(), "openai");
    assert_eq!(id.into_inner(), "openai".to_string());
}

#[test]
fn request_id_from_string_keeps_value() {
    let id = RequestId::from_string("req-1".to_string());
    assert_eq!(id.as_str(), "req-1");
}

#[test]
fn request_id_new_is_uuid_shaped() {
    let id = RequestId::new();
    assert_eq!(id.as_str().chars().count(), 36);
    let other = RequestId::default();
    assert_eq!(other.as_str().chars().count(), 36);
    assert_ne!(id.as_str(), other.as_str());
}

#[test]
fn retryable_errors() {
    assert!(ModelError::Stream("gone".to_string()).is_retryable());
    assert!(ModelError::Timeout(30_000).is_retryable());
    assert!(ModelError::RateLimit("slow down".to_string()).is_retryable());
    assert!(ModelError::UnexpectedStatus(500, String::new()).is_retryable());
    assert!(ModelError::UnexpectedStatus(503, String::new()).is_retryable());
    assert!(ModelError::UnexpectedStatus(429, String::new()).is_retryable());
    assert!(!ModelError::UnexpectedStatus(401, String::new()).is_retryable());
    assert!(!ModelError::UnexpectedStatus(418, String::new()).is_retryable());
    assert!(!ModelError::Authentication("denied".to_string()).is_retryable());
    assert!(!ModelError::Serialization("bad json".to_string()).is_retryable());
}

#[test]
fn client_errors() {
    assert!(ModelError::Authentication("denied".to_string()).is_client_error());
    assert!(ModelError::InvalidRequest("bad".to_string()).is_client_error());
    assert!(ModelError::ModelNotFound("nope".to_string()).is_client_error());
    assert!(ModelError::ContextWindowExceeded(9000, 8192).is_client_error());
    assert!(ModelError::Configuration("missing".to_string()).is_client_error());
    assert!(!ModelError::Timeout(1000).is_client_error());
    assert!(!ModelError::UnexpectedStatus(500, String::new()).is_client_error());
    assert!(!ModelError::RetryLimit(3, 500).is_client_error());
}

#[test]
fn status_codes_are_carried() {
    assert_eq!(ModelError::UnexpectedStatus(502, String::new()).status_code(), Some(502));
    assert_eq!(ModelError::RetryLimit(3, 500).status_code(), Some(500));
    assert_eq!(ModelError::Timeout(1000).status_code(), None);
    assert_eq!(ModelError::Stream("gone".to_string()).status_code(), None);
}

#[test]
fn env_var_errors_are_client_errors() {
    let e = ModelError::EnvVar(EnvVarError {
        var: "OPENAI_API_KEY".to_string(),
        instructions: Some("set it before running".to_string()),
    });
    assert!(e.is_client_error());
    assert!(!e.is_retryable());
    assert_eq!(e.status_code(), None);
}

#[test]
fn content_items_carry_their_text_or_image() {
    let text = ContentItem::Text { text: "hi".to_string() };
    assert_eq!(text.clone(), text);
    let image = ContentItem::Image {
        image_url: ImageUrl { url: "https://img.example/x.png".to_string(), detail: None },
    };
    assert_eq!(image.clone(), image);
    assert_ne!(text, image);
}
