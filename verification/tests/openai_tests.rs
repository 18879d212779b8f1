use rust_ai_sdk::providers::openai::{OpenAIProvider, OpenAIParser};
use rust_ai_sdk::providers::RequestConfig;
use rust_ai_sdk::types::{Message, Tool, ChunkKind, FinishReason};
use rust_ai_sdk::json::JsonValue;

#[test]
fn test_parse_message_response() {
    let provider = OpenAIProvider::new();
    let json = r#"{
        "id": "resp_123",
        "object": "response",
        "model": "gpt-4o-mini",
        "status": "completed",
        "output": [{
            "type": "message",
            "id": "msg_123",
            "status": "completed",
            "content": [{
                "type": "output_text",
                "text": "Hello!"
            }],
            "role": "assistant"
        }],
        "usage": {
            "input_tokens": 10,
            "output_tokens": 5,
            "total_tokens": 15,
            "input_tokens_details": {"cached_tokens": 0},
            "output_tokens_details": {"reasoning_tokens": 0}
        }
    }"#;

    let result = provider.parse_response(json).unwrap();
    assert_eq!(result.content.as_str(), "Hello!");
    assert_eq!(result.usage.input_tokens, 10);
    assert_eq!(result.usage.output_tokens, 5);
    assert_eq!(result.finish_reason, FinishReason::Stop);
}

#[test]
fn test_parse_function_call_response() {
    let provider = OpenAIProvider::new();
    let json = r#"{
        "id": "resp_123",
        "object": "response",
        "model": "gpt-4o-mini",
        "status": "completed",
        "output": [{
            "type": "function_call",
            "id": "fc_123",
            "status": "completed",
            "name": "get_weather",
            "arguments": "{\"location\":\"Tokyo\"}",
            "call_id": "call_123"
        }],
        "usage": {
            "input_tokens": 50,
            "output_tokens": 15,
            "total_tokens": 65,
            "input_tokens_details": {"cached_tokens": 0},
            "output_tokens_details": {"reasoning_tokens": 0}
        }
    }"#;

    let result = provider.parse_response(json).unwrap();
    assert_eq!(result.tool_calls.len(), 1);
    assert_eq!(result.tool_calls[0].function.name.as_str(), "get_weather");
    assert_eq!(result.finish_reason, FinishReason::ToolCalls);
}

#[test]
fn openai_test_parse_stream_text_delta() {
    let mut parser = OpenAIParser::new();

    // response.created
    let created = r#"{"type":"response.created","sequence_number":0,"response":{"id":"resp_123","status":"in_progress"}}"#;
    parser.parse_chunk(created).unwrap();

    // output_text.delta
    let delta = r#"{"type":"response.output_text.delta","sequence_number":5,"output_index":0,"content_index":0,"delta":"Hello"}"#;
    let chunk = parser.parse_chunk(delta).unwrap().unwrap();
    assert_eq!(chunk.text().unwrap().as_str(), "Hello");
}

#[test]
fn test_parse_stream_function_call() {
    let mut parser = OpenAIParser::new();

    // output_item.added with function_call
    let added = r#"{"type":"response.output_item.added","sequence_number":2,"output_index":0,"item":{"type":"function_call","call_id":"call_123","name":"get_weather","arguments":""}}"#;
    parser.parse_chunk(added).unwrap();

    // function_call_arguments.delta
    let delta = r#"{"type":"response.function_call_arguments.delta","sequence_number":3,"item_id":"fc_123","output_index":0,"delta":"{\"loc"}"#;
    let chunk = parser.parse_chunk(delta).unwrap().unwrap();
    assert_eq!(chunk.kind, ChunkKind::ToolDelta);
    let tool_delta = chunk.tool_call_delta.unwrap();
    assert_eq!(tool_delta.function_name, Some("get_weather".to_string()));
}

#[test]
fn openai_test_build_body_with_tools() {
    let provider = OpenAIProvider::new();
    let messages = vec![Message::user("What's the weather?")];
    let params = JsonValue::Obj(vec![
        ("type".to_string(), JsonValue::string("object")),
        ("properties".to_string(), JsonValue::Obj(vec![])),
    ]);
    let tools = vec![Tool::function("get_weather", "Get weather", params)];

    let config = RequestConfig {
        max_tokens: Some(100),
        tools: Some(tools),
        ..Default::default()
    };

    let body = provider
        .build_stream_body("gpt-4o-mini", &messages, &config)
        .unwrap();

    assert!(body.get("tools").unwrap().as_array().is_some());
    assert!(body.get("stream").unwrap().as_bool().unwrap());
    assert_eq!(body.get("max_output_tokens").unwrap().as_u32(), Some(100));
}

#[test]
fn openai_test_headers() {
    let provider = OpenAIProvider::new();
    let headers = provider.headers("test-key");
    let auth = headers
        .iter()
        .find(|(k, _)| k == "authorization")
        .map(|(_, v)| v.clone())
        .unwrap();
    assert!(auth.starts_with("Bearer "));
}

// Multi-turn encoding: the system message becomes top-level instructions and
// the remaining three messages stay in order with their roles mapped.
#[test]
fn test_multi_turn_encoding() {
    let provider = OpenAIProvider::new();
    let messages = vec![
        Message::system("Be terse"),
        Message::user("What is the weather?"),
        Message::assistant("Let me check."),
        Message::tool_result("call_9", "sunny"),
    ];
    let config = RequestConfig::new();
    let body = provider
        .build_complete_body("gpt-4o-mini", &messages, &config)
        .unwrap();

    assert_eq!(
        body.get("instructions").unwrap().as_str().unwrap().as_str(),
        "Be terse"
    );
    let input = body.get("input").unwrap().as_array().unwrap();
    assert_eq!(input.len(), 3);
    let roles: Vec<String> = input
        .iter()
        .map(|m| m.get("role").unwrap().as_str().unwrap().clone())
        .collect();
    assert_eq!(
        roles,
        vec!["user".to_string(), "assistant".to_string(), "tool".to_string()]
    );
    assert_eq!(
        input[0].get("content").unwrap().as_str().unwrap().as_str(),
        "What is the weather?"
    );
}
