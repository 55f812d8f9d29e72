use model_client_rs::models::{ChatChoice, ChatMessage, ChatRequest, ChatResponse, MessageRole, ToolChoice};
use model_client_rs::providers::{
    anthropic_request_body, anthropic_response_to_canonical, anthropic_wire_of, error_for_status,
    openai_request_body, AnthropicContentBlock, AnthropicResponse, AnthropicUsage, ClaudeProvider,
    OpenAIProvider,
};
use model_client_rs::types::TokenUsage;
use model_client_rs::error::ModelError;

fn sample_response(finish: Option<&str>) -> ChatResponse {
    ChatResponse {
        id: "resp-1".to_string(),
        object: "chat.completion".to_string(),
        created: 1_700_000_000,
        model: "large-model".to_string(),
        choices: vec![ChatChoice {
            index: 0,
            message: ChatMessage::assistant("Hello there".to_string()),
            finish_reason: finish.map(|f| f.to_string()),
        }],
        usage: Some(TokenUsage::new(10, 5)),
    }
}

#[test]
fn anthropic_round_trip_preserves_what_callers_observe() {
    for finish in [Some("stop"), Some("length"), Some("tool_calls"), None] {
        let original = sample_response(finish);
        let wire = anthropic_wire_of(&original);
        let decoded = anthropic_response_to_canonical(wire);
        assert_eq!(decoded.get_content(), original.get_content());
        assert_eq!(decoded.usage, original.usage);
        assert_eq!(
            decoded.choices[0].finish_reason, original.choices[0].finish_reason,
            "finish reason {:?}",
            finish
        );
    }
}

#[test]
fn adapters_give_equivalent_canonical_responses() {
    // the OpenAI-style wire shape is the canonical shape itself, so its
    // round trip is the identity; the Anthropic round trip must observe
    // the same content, usage and finish reason
    let original = sample_response(Some("stop"));
    let via_openai = original.clone();
    let via_anthropic = anthropic_response_to_canonical(anthropic_wire_of(&original));
    assert_eq!(via_openai.get_content(), via_anthropic.get_content());
    assert_eq!(via_openai.usage, via_anthropic.usage);
    assert_eq!(
        via_openai.choices[0].finish_reason,
        via_anthropic.choices[0].finish_reason
    );
}

#[test]
fn anthropic_reading_concatenates_text_blocks() {
    let wire = AnthropicResponse {
        id: "msg-1".to_string(),
        model: "small-model".to_string(),
        content: vec![
            AnthropicContentBlock { block_type: "text".to_string(), text: "Hel".to_string() },
            AnthropicContentBlock { block_type: "thinking".to_string(), text: "xxx".to_string() },
            AnthropicContentBlock { block_type: "text".to_string(), text: "lo".to_string() },
        ],
        stop_reason: Some("end_turn".to_string()),
        usage: Some(AnthropicUsage { input_tokens: 7, output_tokens: 3 }),
    };
    let decoded = anthropic_response_to_canonical(wire);
    assert_eq!(decoded.get_content(), Some("Hello"));
    assert_eq!(decoded.choices[0].finish_reason, Some("stop".to_string()));
    let usage = decoded.usage.unwrap();
    assert_eq!((usage.prompt_tokens, usage.completion_tokens, usage.total_tokens), (7, 3, 10));
    assert_eq!(decoded.model, "small-model");
    assert_eq!(decoded.choices[0].message.role, MessageRole::Assistant);
}

#[test]
fn stop_reasons_map_to_canonical_names() {
    for (stop, finish) in [
        ("end_turn", "stop"),
        ("stop_sequence", "stop"),
        ("max_tokens", "length"),
        ("tool_use", "tool_calls"),
        ("weird_future_reason", "weird_future_reason"),
    ] {
        let wire = AnthropicResponse {
            id: "m".to_string(),
            model: "c".to_string(),
            content: vec![],
            stop_reason: Some(stop.to_string()),
            usage: None,
        };
        let decoded = anthropic_response_to_canonical(wire);
        assert_eq!(decoded.choices[0].finish_reason.as_deref(), Some(finish));
    }
}

fn sample_request() -> ChatRequest {
    ChatRequest::new(
        "gpt-4o".to_string(),
        vec![
            ChatMessage::system("be brief".to_string()),
            ChatMessage::user("hi".to_string()),
        ],
    )
}

#[test]
fn openai_body_forces_the_stream_flag_only() {
    let req = sample_request().with_max_tokens(64).with_tool_choice(ToolChoice::Auto);
    let body = openai_request_body(&req, true);
    assert_eq!(body.stream, Some(true));
    assert_eq!(body.model, req.model);
    assert_eq!(body.messages, req.messages);
    assert_eq!(body.max_tokens, Some(64));
    assert_eq!(body.tool_choice, Some(ToolChoice::Auto));
    // the caller's request was not changed
    assert_eq!(req.stream, None);
}

#[test]
fn anthropic_body_defaults_max_tokens() {
    let body = anthropic_request_body(&sample_request(), false);
    assert_eq!(body.max_tokens, 1024);
    assert_eq!(body.model, "gpt-4o");
    assert_eq!(body.messages.len(), 2);
    assert!(!body.stream);

    let with_max = sample_request().with_max_tokens(256);
    let body = anthropic_request_body(&with_max, true);
    assert_eq!(body.max_tokens, 256);
    assert!(body.stream);
}

#[test]
fn endpoint_urls_trim_trailing_slashes() {
    let openai = OpenAIProvider {
        api_key: "k".to_string(),
        api_base: "https://api.openai.com/v1///".to_string(),
    };
    assert_eq!(openai.chat_url(), "https://api.openai.com/v1/v1/chat/completions");
    let openai = OpenAIProvider { api_key: "k".to_string(), api_base: "https://base".to_string() };
    assert_eq!(openai.chat_url(), "https://base/v1/chat/completions");
    assert_eq!(openai.id().as_str(), "openai");

    let claude = ClaudeProvider { api_key: "k".to_string(), api_base: "https://b/".to_string() };
    assert_eq!(claude.messages_url(), "https://b/v1/messages");
    assert_eq!(claude.id().as_str(), "anthropic");
}

#[test]
fn non_success_statuses_become_unexpected_status() {
    assert_eq!(error_for_status(200, String::new()), None);
    assert_eq!(error_for_status(204, String::new()), None);
    match error_for_status(503, "overloaded".to_string()) {
        Some(ModelError::UnexpectedStatus(503, body)) => assert_eq!(body, "overloaded"),
        other => panic!("expected UnexpectedStatus, got {:?}", other),
    }
    assert!(error_for_status(199, String::new()).is_some());
    assert!(error_for_status(300, String::new()).is_some());
}
