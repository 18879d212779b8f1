use rust_ai_sdk::providers::cerebras::{CerebrasProvider, CerebrasParser};
use rust_ai_sdk::providers::RequestConfig;
use rust_ai_sdk::types::{Message, Tool, ChunkKind, FinishReason};
use rust_ai_sdk::json::JsonValue;

#[test]
fn test_parse_text_chunk() {
    let mut parser = CerebrasParser::new();
    let data = r#"{"id":"123","choices":[{"index":0,"delta":{"content":"Hello"},"finish_reason":null}]}"#;

    let chunk = parser.parse_chunk(data).unwrap().unwrap();
    assert_eq!(chunk.text().unwrap().as_str(), "Hello");
    assert!(chunk.finish_reason.is_none());
}

#[test]
fn test_parse_finish_chunk() {
    let mut parser = CerebrasParser::new();
    let data = r#"{"id":"123","choices":[{"index":0,"delta":{},"finish_reason":"stop"}]}"#;

    let chunk = parser.parse_chunk(data).unwrap().unwrap();
    assert_eq!(chunk.finish_reason, Some(FinishReason::Stop));
}

#[test]
fn test_parse_usage_chunk() {
    let mut parser = CerebrasParser::new();
    let data = r#"{"id":"123","choices":[],"usage":{"prompt_tokens":10,"completion_tokens":20}}"#;

    let chunk = parser.parse_chunk(data).unwrap().unwrap();
    assert_eq!(chunk.kind, ChunkKind::UsageOnly);
    let usage = chunk.usage.unwrap();
    assert_eq!(usage.input_tokens, 10);
    assert_eq!(usage.output_tokens, 20);
}

#[test]
fn test_parse_tool_call_delta() {
    let mut parser = CerebrasParser::new();
    let data = r#"{"id":"123","choices":[{"index":0,"delta":{"tool_calls":[{"index":0,"id":"call_123","function":{"name":"get_weather","arguments":"{\"loc"}}]},"finish_reason":null}]}"#;

    let chunk = parser.parse_chunk(data).unwrap().unwrap();
    assert_eq!(chunk.kind, ChunkKind::ToolDelta);
    let delta = chunk.tool_call_delta.unwrap();
    assert_eq!(delta.index, 0);
    assert_eq!(delta.id, Some("call_123".to_string()));
    assert_eq!(delta.function_name, Some("get_weather".to_string()));
}

#[test]
fn test_is_done() {
    let parser = CerebrasParser::new();
    assert!(parser.is_end_of_stream("[DONE]"));
    assert!(!parser.is_end_of_stream("{}"));
}

#[test]
fn cerebras_test_build_body_with_tools() {
    let provider = CerebrasProvider::new();
    let messages = vec![Message::user("What's the weather?")];
    let params = JsonValue::Obj(vec![
        ("type".to_string(), JsonValue::string("object")),
        (
            "properties".to_string(),
            JsonValue::Obj(vec![(
                "location".to_string(),
                JsonValue::Obj(vec![("type".to_string(), JsonValue::string("string"))]),
            )]),
        ),
        (
            "required".to_string(),
            JsonValue::Arr(vec![JsonValue::string("location")]),
        ),
    ]);
    let tools = vec![Tool::function("get_weather", "Get current weather", params)];

    let config = RequestConfig {
        max_tokens: Some(100),
        tools: Some(tools),
        ..Default::default()
    };

    let body = provider
        .build_stream_body("llama3.1-70b", &messages, &config)
        .unwrap();

    assert!(body.get("tools").unwrap().as_array().is_some());
    assert!(body.get("stream").unwrap().as_bool().unwrap());
    assert!(body
        .get("stream_options")
        .unwrap()
        .get("include_usage")
        .unwrap()
        .as_bool()
        .unwrap());
}

#[test]
fn test_parse_response_terminal() {
    let provider = CerebrasProvider::new();
    let json = r#"{
        "model": "llama3.1-70b",
        "choices": [{
            "message": {"content": "Hi there"},
            "finish_reason": "stop"
        }],
        "usage": {"prompt_tokens": 4, "completion_tokens": 2}
    }"#;
    let result = provider.parse_response(json).unwrap();
    assert_eq!(result.content.as_str(), "Hi there");
    assert_eq!(result.usage.input_tokens, 4);
    assert_eq!(result.usage.output_tokens, 2);
    assert_eq!(result.finish_reason, FinishReason::Stop);
    assert_eq!(result.model.as_str(), "llama3.1-70b");
}

// The rendered body is exact JSON text, with strings escaped.
#[test]
fn test_body_bytes_exact() {
    let provider = CerebrasProvider::new();
    let messages = vec![Message::user("hi")];
    let config = RequestConfig::new();
    let body = provider
        .build_complete_body("m1", &messages, &config)
        .unwrap();
    let bytes = rust_ai_sdk::json::to_json_bytes(&body);
    let text = String::from_utf8(bytes).unwrap();
    assert_eq!(
        text.as_str(),
        "{\"model\":\"m1\",\"messages\":[{\"role\":\"user\",\"content\":\"hi\"}],\"stream\":false}"
    );
}
