use rust_ai_sdk::providers::anthropic::{AnthropicProvider, AnthropicParser};
use rust_ai_sdk::providers::EventDecoder;
use rust_ai_sdk::stream::{CompletionStream, StreamStep};
use rust_ai_sdk::providers::RequestConfig;
use rust_ai_sdk::types::{Message, Tool, ChunkKind, FinishReason};
use rust_ai_sdk::json::JsonValue;

#[test]
fn test_parse_text_response() {
    let provider = AnthropicProvider::new();
    let json = r#"{
        "id": "msg_123",
        "type": "message",
        "role": "assistant",
        "model": "anthropic-3-haiku-20240307",
        "content": [{"type": "text", "text": "Hello!"}],
        "stop_reason": "end_turn",
        "usage": {"input_tokens": 10, "output_tokens": 5}
    }"#;

    let result = provider.parse_response(json).unwrap();
    assert_eq!(result.content.as_str(), "Hello!");
    assert_eq!(result.usage.input_tokens, 10);
    assert_eq!(result.usage.output_tokens, 5);
    assert_eq!(result.finish_reason, FinishReason::Stop);
}

#[test]
fn test_parse_tool_use_response() {
    let provider = AnthropicProvider::new();
    let json = r#"{
        "id": "msg_123",
        "type": "message",
        "role": "assistant",
        "model": "anthropic-3-haiku-20240307",
        "content": [{
            "type": "tool_use",
            "id": "toolu_123",
            "name": "get_weather",
            "input": {"location": "Tokyo"}
        }],
        "stop_reason": "tool_use",
        "usage": {"input_tokens": 50, "output_tokens": 30}
    }"#;

    let result = provider.parse_response(json).unwrap();
    assert_eq!(result.tool_calls.len(), 1);
    assert_eq!(result.tool_calls[0].function.name.as_str(), "get_weather");
    assert_eq!(result.finish_reason, FinishReason::ToolCalls);
}

#[test]
fn anthropic_test_parse_stream_text_delta() {
    let mut parser = AnthropicParser::new();

    // message_start
    let start =
        r#"{"type":"message_start","message":{"usage":{"input_tokens":10,"output_tokens":1}}}"#;
    parser.parse_chunk(start).unwrap();

    // content_block_start
    let block_start =
        r#"{"type":"content_block_start","index":0,"content_block":{"type":"text","text":""}}"#;
    parser.parse_chunk(block_start).unwrap();

    // text_delta
    let delta = r#"{"type":"content_block_delta","index":0,"delta":{"type":"text_delta","text":"Hello"}}"#;
    let chunk = parser.parse_chunk(delta).unwrap().unwrap();
    assert_eq!(chunk.text().unwrap().as_str(), "Hello");
}

#[test]
fn test_parse_stream_tool_delta() {
    let mut parser = AnthropicParser::new();

    // message_start
    let start =
        r#"{"type":"message_start","message":{"usage":{"input_tokens":10,"output_tokens":1}}}"#;
    parser.parse_chunk(start).unwrap();

    // content_block_start for tool_use
    let block_start = r#"{"type":"content_block_start","index":0,"content_block":{"type":"tool_use","id":"toolu_123","name":"get_weather","input":{}}}"#;
    parser.parse_chunk(block_start).unwrap();

    // input_json_delta
    let delta = r#"{"type":"content_block_delta","index":0,"delta":{"type":"input_json_delta","partial_json":"{\"loc"}}"#;
    let chunk = parser.parse_chunk(delta).unwrap().unwrap();
    assert_eq!(chunk.kind, ChunkKind::ToolDelta);
    let tool_delta = chunk.tool_call_delta.unwrap();
    assert_eq!(tool_delta.function_name, Some("get_weather".to_string()));
}

#[test]
fn anthropic_test_build_body_with_tools() {
    let provider = AnthropicProvider::new();
    let messages = vec![Message::user("What's the weather?")];
    let params = JsonValue::Obj(vec![
        ("type".to_string(), JsonValue::string("object")),
        ("properties".to_string(), JsonValue::Obj(vec![])),
    ]);
    let tools = vec![Tool::function("get_weather", "Get weather", params)];

    let config = RequestConfig {
        max_tokens: Some(100),
        tools: Some(tools),
        ..Default::default()
    };

    let body = provider
        .build_stream_body("anthropic-3-haiku", &messages, &config)
        .unwrap();

    assert!(body.get("tools").unwrap().as_array().is_some());
    assert!(body.get("stream").unwrap().as_bool().unwrap());
    assert_eq!(body.get("max_tokens").unwrap().as_u32(), Some(100));
}

#[test]
fn anthropic_test_headers() {
    let provider = AnthropicProvider::new();
    let headers = provider.headers("test-key");
    assert!(headers.iter().any(|(k, _)| k == "x-api-key"));
    assert!(headers.iter().any(|(k, _)| k == "anthropic-version"));
}

// Tool call scenario over the wire protocol: tool_use block with argument
// fragments, closed by message_delta with stop_reason tool_use.
#[test]
fn test_tool_call_stream_scenario() {
    let provider = AnthropicProvider::new();
    let decoder = EventDecoder::Anthropic(provider.create_parser());
    let mut stream = CompletionStream::new(decoder, "anthropic-3-haiku".to_string());

    let wire: &[u8] = b"data: {\"type\":\"message_start\",\"message\":{\"usage\":{\"input_tokens\":10,\"output_tokens\":1}}}\n\n\
data: {\"type\":\"content_block_start\",\"index\":0,\"content_block\":{\"type\":\"tool_use\",\"id\":\"tu_1\",\"name\":\"get_weather\",\"input\":{}}}\n\n\
data: {\"type\":\"content_block_delta\",\"index\":0,\"delta\":{\"type\":\"input_json_delta\",\"partial_json\":\"{\\\"loc\"}}\n\n\
data: {\"type\":\"content_block_delta\",\"index\":0,\"delta\":{\"type\":\"input_json_delta\",\"partial_json\":\"ation\\\":\\\"Tok\"}}\n\n\
data: {\"type\":\"content_block_delta\",\"index\":0,\"delta\":{\"type\":\"input_json_delta\",\"partial_json\":\"yo\\\"}\"}}\n\n\
data: {\"type\":\"content_block_stop\",\"index\":0}\n\n\
data: {\"type\":\"message_delta\",\"delta\":{\"stop_reason\":\"tool_use\"},\"usage\":{\"output_tokens\":7}}\n\n\
data: {\"type\":\"message_stop\"}\n\n";
    stream.feed(wire);
    loop {
        match stream.next_step() {
            StreamStep::Chunk(_) | StreamStep::Skipped => continue,
            StreamStep::NeedInput => break,
            StreamStep::Done => break,
            StreamStep::Failed(e) => panic!("decode failed: {:?}", e.is_retryable()),
        }
    }
    let result = stream.finalize().unwrap();
    assert_eq!(result.tool_calls.len(), 1);
    assert_eq!(result.tool_calls[0].id.as_str(), "tu_1");
    assert_eq!(result.tool_calls[0].function.name.as_str(), "get_weather");
    assert_eq!(
        result.tool_calls[0].function.arguments.as_str(),
        "{\"location\":\"Tokyo\"}"
    );
    assert_eq!(result.finish_reason, FinishReason::ToolCalls);
    assert_eq!(result.usage.input_tokens, 10);
    assert_eq!(result.usage.output_tokens, 7);
}
