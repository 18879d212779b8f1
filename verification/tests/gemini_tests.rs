use rust_ai_sdk::providers::gemini::{GeminiProvider, GeminiParser};
use rust_ai_sdk::providers::EventDecoder;
use rust_ai_sdk::stream::{CompletionStream, StreamStep};
use rust_ai_sdk::providers::RequestConfig;
use rust_ai_sdk::types::{Message, Tool, ChunkKind, FinishReason};
use rust_ai_sdk::json::JsonValue;

#[test]
fn test_convert_messages() {
    let provider = GeminiProvider::new();
    let messages = vec![
        Message::system("You are helpful"),
        Message::user("Hello"),
        Message::assistant("Hi there!"),
    ];

    let contents = provider.convert_messages(&messages);
    // System message is filtered out
    assert_eq!(contents.len(), 2);
    assert_eq!(
        contents[0].get("role").unwrap().as_str().unwrap().as_str(),
        "user"
    );
    assert_eq!(
        contents[1].get("role").unwrap().as_str().unwrap().as_str(),
        "model"
    );
}

#[test]
fn test_extract_system() {
    let provider = GeminiProvider::new();
    let messages = vec![Message::system("Be helpful"), Message::user("Hi")];

    let system = provider.extract_system(&messages);
    assert!(system.is_some());
}

#[test]
fn test_parse_response() {
    let provider = GeminiProvider::new();
    let json = r#"{
        "candidates": [{
            "content": {
                "parts": [{"text": "Hello!"}],
                "role": "model"
            },
            "finishReason": "STOP"
        }],
        "usageMetadata": {
            "promptTokenCount": 10,
            "candidatesTokenCount": 5
        }
    }"#;

    let result = provider.parse_response(json).unwrap();
    assert_eq!(result.content.as_str(), "Hello!");
    assert_eq!(result.usage.input_tokens, 10);
    assert_eq!(result.usage.output_tokens, 5);
    assert_eq!(result.finish_reason, FinishReason::Stop);
}

#[test]
fn test_parse_stream_chunk() {
    let mut parser = GeminiParser::new();
    let json = r#"{
        "candidates": [{
            "content": {
                "parts": [{"text": "Hi"}],
                "role": "model"
            }
        }],
        "usageMetadata": {
            "promptTokenCount": 5,
            "candidatesTokenCount": 1
        }
    }"#;

    let chunk = parser.parse_chunk(json).unwrap().unwrap();
    assert_eq!(chunk.text().unwrap().as_str(), "Hi");
    assert!(chunk.usage.is_some());
}

#[test]
fn test_parse_function_call() {
    let mut parser = GeminiParser::new();
    let json = r#"{
        "candidates": [{
            "content": {
                "parts": [{
                    "functionCall": {
                        "name": "get_weather",
                        "args": {"location": "Tokyo"}
                    }
                }],
                "role": "model"
            }
        }]
    }"#;

    let chunk = parser.parse_chunk(json).unwrap().unwrap();
    assert_eq!(chunk.kind, ChunkKind::ToolDelta);
    let delta = chunk.tool_call_delta.unwrap();
    assert_eq!(delta.function_name, Some("get_weather".to_string()));
}

#[test]
fn gemini_test_build_body_with_tools() {
    let provider = GeminiProvider::new();
    let messages = vec![Message::user("What's the weather?")];
    let params = JsonValue::Obj(vec![
        ("type".to_string(), JsonValue::string("object")),
        ("properties".to_string(), JsonValue::Obj(vec![])),
    ]);
    let tools = vec![Tool::function("get_weather", "Get weather", params)];

    let config = RequestConfig {
        max_tokens: Some(100),
        tools: Some(tools),
        ..Default::default()
    };

    let body = provider
        .build_stream_body("gemini-pro", &messages, &config)
        .unwrap();
    assert!(body.get("tools").unwrap().as_array().is_some());
    assert_eq!(
        body.get("generationConfig")
            .unwrap()
            .get("maxOutputTokens")
            .unwrap()
            .as_u32(),
        Some(100)
    );
}

#[test]
fn test_gemini_urls() {
    let provider = GeminiProvider::new().with_base_url("http://localhost:9999");
    assert_eq!(
        provider.stream_url("gem", "k").as_str(),
        "http://localhost:9999/models/gem:streamGenerateContent?alt=sse"
    );
    assert_eq!(
        provider.complete_url("gem", "k").as_str(),
        "http://localhost:9999/models/gem:generateContent"
    );
    let q = GeminiProvider::new()
        .with_base_url("http://localhost:9999")
        .with_query_auth();
    assert_eq!(
        q.stream_url("gem", "k").as_str(),
        "http://localhost:9999/models/gem:streamGenerateContent?alt=sse&key=k"
    );
}

// A stream ending without any sentinel and without a final event still gives
// a valid aggregate: the texts concatenate and the last usage metadata wins.
#[test]
fn test_no_sentinel_stream_scenario() {
    let provider = GeminiProvider::new();
    let decoder = EventDecoder::Gemini(provider.create_parser());
    let mut stream = CompletionStream::new(decoder, "gemini-pro".to_string());

    let wire: &[u8] = b"data: {\"candidates\":[{\"content\":{\"parts\":[{\"text\":\"Hel\"}]}}],\"usageMetadata\":{\"promptTokenCount\":5,\"candidatesTokenCount\":1}}\n\n\
data: {\"candidates\":[{\"content\":{\"parts\":[{\"text\":\"lo\"}]},\"finishReason\":\"STOP\"}],\"usageMetadata\":{\"promptTokenCount\":5,\"candidatesTokenCount\":2}}\n\n";
    stream.feed(wire);
    loop {
        match stream.next_step() {
            StreamStep::Chunk(_) | StreamStep::Skipped => continue,
            StreamStep::NeedInput | StreamStep::Done => break,
            StreamStep::Failed(_) => panic!("decode failed"),
        }
    }
    // connection closes with nothing buffered
    let tail = stream.end_of_input();
    assert!(tail.is_none());
    let result = stream.finalize().unwrap();
    assert_eq!(result.content.as_str(), "Hello");
    assert_eq!(result.usage.input_tokens, 5);
    assert_eq!(result.usage.output_tokens, 2);
    assert_eq!(result.finish_reason, FinishReason::Stop);
}
