use model_client_rs::error::ModelError;
use model_client_rs::models::{MessageRole, StreamingChatResponse};
use model_client_rs::streaming::{DecodeStep, StreamDecoder, WireShape};

const CHUNK_ONE: &str = "data: {\"id\":\"c-1\",\"object\":\"chat.completion.chunk\",\"created\":1700000000,\"model\":\"gpt-4o\",\"choices\":[{\"index\":0,\"delta\":{\"role\":\"assistant\",\"content\":\"Hel\"}}]}\n\n";

const CHUNK_TWO: &str = "data: {\"id\":\"c-1\",\"object\":\"chat.completion.chunk\",\"created\":1700000000,\"model\":\"gpt-4o\",\"choices\":[{\"index\":0,\"delta\":{\"content\":\"lo\"},\"finish_reason\":\"stop\"}]}\n\n";

const DONE_EVENT: &str = "data: [DONE]\n\n";

enum End {
    Open,
    Done,
    Failed(ModelError),
}

/// Drives the decoder over everything currently buffered.
fn drain(dec: &mut StreamDecoder) -> (Vec<StreamingChatResponse>, End) {
    let mut items = Vec::new();
    loop {
        match dec.next_step() {
            DecodeStep::Pending => return (items, End::Open),
            DecodeStep::Item(c) => items.push(c),
            DecodeStep::Done => return (items, End::Done),
            DecodeStep::Error(e) => return (items, End::Failed(e)),
        }
    }
}

fn decode_all(reads: &[&[u8]]) -> (Vec<StreamingChatResponse>, bool) {
    let mut dec = StreamDecoder::new();
    let mut items = Vec::new();
    for read in reads {
        dec.feed(read);
    }
    loop {
        match dec.next_step() {
            DecodeStep::Pending => return (items, false),
            DecodeStep::Item(c) => items.push(c),
            DecodeStep::Done => return (items, true),
            DecodeStep::Error(_) => panic!("unexpected decode error"),
        }
    }
}

#[test]
fn decodes_reference_stream() {
    let stream = format!("{}{}{}", CHUNK_ONE, CHUNK_TWO, DONE_EVENT);
    let (items, done) = decode_all(&[stream.as_bytes()]);
    assert!(done);
    assert_eq!(items.len(), 2);
    assert_eq!(items[0].id, "c-1");
    assert_eq!(items[0].object, "chat.completion.chunk");
    assert_eq!(items[0].created, 1_700_000_000);
    assert_eq!(items[0].model, "gpt-4o");
    assert_eq!(items[0].choices.len(), 1);
    let delta = items[0].choices[0].delta.as_ref().unwrap();
    assert_eq!(delta.role, MessageRole::Assistant);
    assert_eq!(delta.content, "Hel");
    assert_eq!(items[0].choices[0].finish_reason, None);
    let delta2 = items[1].choices[0].delta.as_ref().unwrap();
    assert_eq!(delta2.content, "lo");
    assert_eq!(items[1].choices[0].finish_reason, Some("stop".to_string()));
}

#[test]
fn split_at_every_offset_decodes_identically() {
    let stream = format!("{}{}{}", CHUNK_ONE, CHUNK_TWO, DONE_EVENT);
    let bytes = stream.as_bytes();
    let (whole_items, whole_done) = decode_all(&[bytes]);
    assert!(whole_done);
    for cut in 0..=bytes.len() {
        let (items, done) = decode_all(&[&bytes[..cut], &bytes[cut..]]);
        assert_eq!(items, whole_items, "differs when split at {}", cut);
        assert!(done, "not finished when split at {}", cut);
    }
}

#[test]
fn sentinel_ends_stream_cleanly() {
    let mut dec = StreamDecoder::new();
    dec.feed(DONE_EVENT.as_bytes());
    let (items, end) = drain(&mut dec);
    assert!(items.is_empty());
    assert!(matches!(end, End::Done));
    // nothing trails the sentinel, and closing reports no error
    assert!(matches!(dec.next_step(), DecodeStep::Done));
    assert_eq!(dec.close(), None);
}

#[test]
fn malformed_payload_is_the_final_error() {
    let mut dec = StreamDecoder::new();
    dec.feed(b"data: {not json\n\n");
    dec.feed(CHUNK_ONE.as_bytes());
    let (items, end) = drain(&mut dec);
    assert!(items.is_empty());
    match end {
        End::Failed(ModelError::Serialization(_)) => {},
        _ => panic!("expected a decode error"),
    }
    // the sequence is over: even buffered events yield nothing further
    assert!(matches!(dec.next_step(), DecodeStep::Done));
}

#[test]
fn missing_mandatory_field_is_a_decode_error() {
    let mut dec = StreamDecoder::new();
    dec.feed(b"data: {\"object\":\"chat.completion.chunk\"}\n\n");
    let (_, end) = drain(&mut dec);
    assert!(matches!(end, End::Failed(ModelError::Serialization(_))));
}

#[test]
fn disconnect_before_sentinel_is_a_stream_error() {
    let mut dec = StreamDecoder::new();
    dec.feed(CHUNK_ONE.as_bytes());
    let (items, end) = drain(&mut dec);
    assert_eq!(items.len(), 1);
    assert!(matches!(end, End::Open));
    match dec.close() {
        Some(ModelError::Stream(m)) => assert_eq!(m, "disconnected before completion"),
        other => panic!("expected a stream error, got {:?}", other),
    }
}

#[test]
fn event_spanning_two_data_lines_is_joined() {
    // the two data-line payloads are joined with a line feed, which JSON
    // reads as whitespace
    let mut dec = StreamDecoder::new();
    dec.feed(b"data: {\"id\":\"c-2\",\"object\":\"x\",\"created\":1,\"model\":\"m\",\n");
    dec.feed(b"data: \"choices\":[]}\n\n");
    let (items, end) = drain(&mut dec);
    assert!(matches!(end, End::Open));
    assert_eq!(items.len(), 1);
    assert_eq!(items[0].id, "c-2");
    assert!(items[0].choices.is_empty());
}

#[test]
fn non_data_lines_are_ignored() {
    let mut dec = StreamDecoder::new();
    dec.feed(b"event: message\n");
    dec.feed(b"data: {\"id\":\"c-3\",\"object\":\"x\",\"created\":2,\"model\":\"m\",\"choices\":[]}\n\n");
    let (items, _) = drain(&mut dec);
    assert_eq!(items.len(), 1);
    assert_eq!(items[0].created, 2);
}

#[test]
fn choice_without_index_is_a_decode_error() {
    let mut dec = StreamDecoder::new();
    dec.feed(b"data: {\"id\":\"c\",\"object\":\"x\",\"created\":1,\"model\":\"m\",\"choices\":[{}]}\n\n");
    let (_, end) = drain(&mut dec);
    assert!(matches!(end, End::Failed(ModelError::Serialization(_))));
}

#[test]
fn tool_call_deltas_are_decoded() {
    let mut dec = StreamDecoder::new();
    let event = "data: {\"id\":\"c\",\"object\":\"x\",\"created\":1,\"model\":\"m\",\"choices\":[{\"index\":0,\"delta\":{\"tool_calls\":[{\"id\":\"t1\",\"type\":\"function\",\"function\":{\"name\":\"get_weather\",\"arguments\":\"{}\"}}]}}]}\n\n";
    dec.feed(event.as_bytes());
    let (items, _) = drain(&mut dec);
    assert_eq!(items.len(), 1);
    let delta = items[0].choices[0].delta.as_ref().unwrap();
    let calls = delta.tool_calls.as_ref().unwrap();
    assert_eq!(calls.len(), 1);
    assert_eq!(calls[0].id, "t1");
    assert_eq!(calls[0].call_type, "function");
    assert_eq!(calls[0].function.name, "get_weather");
    assert_eq!(calls[0].function.arguments, "{}");
}

#[test]
fn comment_and_heartbeat_blocks_are_skipped() {
    // an SSE comment block, a stray blank-line pair, and a lone
    // `event:` block carry no data line: none of them is an event
    let mut dec = StreamDecoder::new();
    dec.feed(b": keep-alive\n\n");
    dec.feed(b"\n\n");
    dec.feed(CHUNK_ONE.as_bytes());
    dec.feed(b"event: heartbeat\n\n");
    dec.feed(DONE_EVENT.as_bytes());
    let (items, end) = drain(&mut dec);
    assert_eq!(items.len(), 1);
    assert_eq!(items[0].id, "c-1");
    assert!(matches!(end, End::Done));
}

#[test]
fn comment_blocks_alone_leave_the_stream_open() {
    let mut dec = StreamDecoder::new();
    dec.feed(b": ping\n\n: ping\n\n");
    let (items, end) = drain(&mut dec);
    assert!(items.is_empty());
    assert!(matches!(end, End::Open));
}

fn anthropic_events() -> Vec<&'static [u8]> {
    vec![
        b"event: message_start\ndata: {\"type\":\"message_start\",\"message\":{\"id\":\"msg-1\",\"model\":\"small-model\",\"usage\":{\"input_tokens\":5}}}\n\n",
        b"event: content_block_delta\ndata: {\"type\":\"content_block_delta\",\"index\":0,\"delta\":{\"type\":\"text_delta\",\"text\":\"Hel\"}}\n\n",
        b"data: {\"type\":\"content_block_delta\",\"index\":0,\"delta\":{\"type\":\"text_delta\",\"text\":\"lo\"}}\n\n",
        b"event: ping\ndata: {\"type\":\"ping\"}\n\n",
        b"data: {\"type\":\"message_delta\",\"delta\":{\"stop_reason\":\"end_turn\"},\"usage\":{\"output_tokens\":3}}\n\n",
        b"data: {\"type\":\"message_stop\"}\n\n",
    ]
}

#[test]
fn anthropic_stream_events_are_bridged() {
    let mut dec = StreamDecoder::new_for(WireShape::Anthropic);
    for event in anthropic_events() {
        dec.feed(event);
    }
    let (items, end) = drain(&mut dec);
    assert!(matches!(end, End::Done));
    assert_eq!(items.len(), 5);
    // the opening event carries the id and the model; later ones inherit
    for item in &items {
        assert_eq!(item.id, "msg-1");
        assert_eq!(item.model, "small-model");
        assert_eq!(item.object, "chat.completion.chunk");
    }
    assert_eq!(items[0].choices[0].delta.as_ref().unwrap().role, MessageRole::Assistant);
    assert_eq!(items[1].choices[0].delta.as_ref().unwrap().content, "Hel");
    assert_eq!(items[2].choices[0].delta.as_ref().unwrap().content, "lo");
    assert!(items[3].choices.is_empty());
    assert_eq!(items[4].choices[0].finish_reason, Some("stop".to_string()));
    // nothing trails the message_stop
    assert!(matches!(dec.next_step(), DecodeStep::Done));
    assert_eq!(dec.close(), None);
}

#[test]
fn anthropic_stream_split_at_every_offset_decodes_identically() {
    let mut whole: Vec<u8> = Vec::new();
    for event in anthropic_events() {
        whole.extend_from_slice(event);
    }
    let decode = |reads: &[&[u8]]| {
        let mut dec = StreamDecoder::new_for(WireShape::Anthropic);
        for read in reads {
            dec.feed(read);
        }
        drain(&mut dec)
    };
    let (whole_items, whole_end) = decode(&[&whole]);
    assert!(matches!(whole_end, End::Done));
    for cut in 0..=whole.len() {
        let (items, end) = decode(&[&whole[..cut], &whole[cut..]]);
        assert_eq!(items, whole_items, "differs when split at {}", cut);
        assert!(matches!(end, End::Done), "not finished when split at {}", cut);
    }
}

#[test]
fn anthropic_error_event_is_a_provider_error() {
    let mut dec = StreamDecoder::new_for(WireShape::Anthropic);
    dec.feed(b"data: {\"type\":\"error\",\"error\":{\"type\":\"overloaded_error\",\"message\":\"Overloaded\"}}\n\n");
    let (items, end) = drain(&mut dec);
    assert!(items.is_empty());
    match end {
        End::Failed(ModelError::Provider(m)) => assert_eq!(m, "Overloaded"),
        other => panic!("expected a provider error, got {:?}", matches!(other, End::Done)),
    }
    assert!(matches!(dec.next_step(), DecodeStep::Done));
}
