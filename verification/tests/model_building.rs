use model_client_rs::models::{
    ChatChoice, ChatMessage, ChatRequest, ChatResponse, FunctionCall, MessageRole, ToolCall,
};
use model_client_rs::utils::{get_string, parse_json, str_eq, to_json};

#[test]
fn message_constructors_set_roles() {
    assert_eq!(ChatMessage::system("s".to_string()).role, MessageRole::System);
    assert_eq!(ChatMessage::user("u".to_string()).role, MessageRole::User);
    assert_eq!(ChatMessage::assistant("a".to_string()).role, MessageRole::Assistant);
    let t = ChatMessage::tool("out".to_string(), "call-1".to_string());
    assert_eq!(t.role, MessageRole::Tool);
    assert_eq!(t.tool_call_id, Some("call-1".to_string()));
    assert_eq!(t.content, "out");
}

#[test]
fn message_builders_fill_options() {
    let call = ToolCall {
        id: "t".to_string(),
        call_type: "function".to_string(),
        function: FunctionCall::new("f".to_string(), "{}".to_string()),
    };
    let m = ChatMessage::assistant("ok".to_string())
        .with_name("bot".to_string())
        .with_tool_calls(vec![call.clone()]);
    assert_eq!(m.name, Some("bot".to_string()));
    assert_eq!(m.tool_calls, Some(vec![call]));
}

#[test]
fn request_builders_fill_options() {
    let req = ChatRequest::new("m".to_string(), vec![])
        .with_temperature(0.5f32.to_bits())
        .with_max_tokens(128)
        .with_stream(true);
    assert_eq!(req.temperature_bits, Some(0.5f32.to_bits()));
    assert_eq!(req.max_tokens, Some(128));
    assert_eq!(req.stream, Some(true));
    assert_eq!(req.n, None);
    assert_eq!(req.model, "m");
}

#[test]
fn response_accessors_read_the_first_choice() {
    let resp = ChatResponse {
        id: "r".to_string(),
        object: "chat.completion".to_string(),
        created: 0,
        model: "m".to_string(),
        choices: vec![
            ChatChoice {
                index: 0,
                message: ChatMessage::assistant("first".to_string()),
                finish_reason: None,
            },
            ChatChoice {
                index: 1,
                message: ChatMessage::assistant("second".to_string()),
                finish_reason: None,
            },
        ],
        usage: None,
    };
    assert_eq!(resp.get_content(), Some("first"));
    assert_eq!(resp.get_tool_calls(), None);

    let empty = ChatResponse { choices: vec![], ..resp };
    assert_eq!(empty.get_content(), None);
    assert_eq!(empty.get_tool_calls(), None);
}

#[test]
fn clones_are_deep_and_equal() {
    let m = ChatMessage::assistant("hello".to_string()).with_name("bot".to_string());
    assert_eq!(m.clone(), m);
    let req = ChatRequest::new("m".to_string(), vec![m]).with_max_tokens(5);
    assert_eq!(req.clone(), req);
}

#[test]
fn parse_arguments_reads_json() {
    let call = FunctionCall::new("f".to_string(), "{\"city\":\"Paris\"}".to_string());
    let value = call.parse_arguments().unwrap();
    assert_eq!(get_string(&value, "city"), Some("Paris".to_string()));

    let bad = FunctionCall::new("f".to_string(), "{broken".to_string());
    assert!(bad.parse_arguments().is_err());
}

#[test]
fn json_utilities_round_trip() {
    let value = parse_json("{\"a\":\"b\",\"n\":3}").unwrap();
    assert_eq!(get_string(&value, "a"), Some("b".to_string()));
    assert_eq!(get_string(&value, "n"), None);
    assert_eq!(get_string(&value, "missing"), None);
    let printed = to_json(&value).unwrap();
    let reparsed = parse_json(&printed).unwrap();
    assert_eq!(get_string(&reparsed, "a"), Some("b".to_string()));
    assert!(parse_json("not json").is_err());
}

#[test]
fn str_eq_compares_by_content() {
    assert!(str_eq("abc", "abc"));
    assert!(!str_eq("abc", "abd"));
    assert!(!str_eq("abc", "abcd"));
    assert!(str_eq("", ""));
    assert!(str_eq("héllo", "héllo"));
    assert!(!str_eq("héllo", "hello"));
}
