use rust_ai_sdk::client::ClientCore;
use rust_ai_sdk::error::Error;
use rust_ai_sdk::json::{JsonValue, to_json_bytes, to_json_string};
use rust_ai_sdk::providers::{RequestConfig, AnyProvider, get_provider};
use rust_ai_sdk::providers::anthropic::AnthropicProvider;
use rust_ai_sdk::providers::cerebras::CerebrasProvider;
use rust_ai_sdk::types::{Message, FinishReason};

fn core_with_key(provider: &str, key: &str) -> ClientCore {
    let mut core = ClientCore::new();
    core.api_keys.push((provider.to_string(), key.to_string()));
    core
}

#[test]
fn test_prepare_stream_request() {
    let mut core = core_with_key("cerebras", "sk-test");
    core.base_urls
        .push(("cerebras".to_string(), "http://localhost:1234".to_string()));
    let messages = vec![Message::user("Hi")];
    let config = RequestConfig::new();
    let prepared = core
        .prepare_stream_request("cerebras/llama3.1-70b", &messages, &config)
        .unwrap();
    assert_eq!(prepared.url.as_str(), "http://localhost:1234/chat/completions");
    assert_eq!(prepared.model.as_str(), "llama3.1-70b");
    assert!(prepared
        .headers
        .iter()
        .any(|(k, v)| k == "authorization" && v == "Bearer sk-test"));
    let body = String::from_utf8(prepared.body.clone()).unwrap();
    assert!(body.contains("\"stream\":true"));
    assert!(body.contains("\"model\":\"llama3.1-70b\""));
}

#[test]
fn test_prepare_request_errors() {
    let core = core_with_key("cerebras", "sk-test");
    let messages = vec![Message::user("Hi")];
    let config = RequestConfig::new();
    match core.prepare_stream_request("nosuchthing", &messages, &config) {
        Err(Error::InvalidModel(m)) => assert_eq!(m.as_str(), "nosuchthing"),
        _ => panic!("model without a slash must be invalid"),
    }
    match core.prepare_stream_request("unknown/model", &messages, &config) {
        Err(Error::InvalidModel(m)) => assert_eq!(m.as_str(), "unknown provider: unknown"),
        _ => panic!("unknown provider must be invalid"),
    }
    match core.prepare_stream_request("anthropic/anthropic-3-haiku", &messages, &config) {
        Err(Error::MissingApiKey(p)) => assert_eq!(p.as_str(), "anthropic"),
        _ => panic!("missing key must be reported"),
    }
}

#[test]
fn test_get_provider_names() {
    assert!(matches!(get_provider("cerebras"), Some(AnyProvider::Cerebras(_))));
    assert!(matches!(get_provider("anthropic"), Some(AnyProvider::Anthropic(_))));
    assert!(matches!(get_provider("gemini"), Some(AnyProvider::Gemini(_))));
    assert!(matches!(get_provider("openai"), Some(AnyProvider::OpenAI(_))));
    assert!(get_provider("mystery").is_none());
}

// JSON rendering: escapes, numbers, nesting.
#[test]
fn test_json_rendering() {
    let v = JsonValue::Obj(vec![
        ("a".to_string(), JsonValue::string("line\nbreak \"q\" \\ tab\t")),
        ("b".to_string(), JsonValue::Arr(vec![
            JsonValue::Null,
            JsonValue::Bool(true),
            JsonValue::from_u64(1234567890),
            JsonValue::from_milli(700),
        ])),
    ]);
    let text = String::from_utf8(to_json_bytes(&v)).unwrap();
    assert_eq!(
        text.as_str(),
        "{\"a\":\"line\\nbreak \\\"q\\\" \\\\ tab\\t\",\"b\":[null,true,1234567890,0.7]}"
    );
}

// Rendering as text agrees with rendering as bytes.
#[test]
fn test_json_text_rendering() {
    let v = JsonValue::Obj(vec![(
        "k".to_string(),
        JsonValue::Arr(vec![
            JsonValue::from_u64(1),
            JsonValue::string("two"),
            JsonValue::Obj(vec![("x".to_string(), JsonValue::Bool(false))]),
            JsonValue::Null,
        ]),
    )]);
    let text = to_json_string(&v).unwrap();
    assert_eq!(text.as_str(), "{\"k\":[1,\"two\",{\"x\":false},null]}");
    assert_eq!(text.as_bytes(), to_json_bytes(&v).as_slice());
}

#[test]
fn test_milli_rendering() {
    assert_eq!(String::from_utf8(to_json_bytes(&JsonValue::from_milli(1000))).unwrap(), "1");
    assert_eq!(String::from_utf8(to_json_bytes(&JsonValue::from_milli(50))).unwrap(), "0.05");
    assert_eq!(String::from_utf8(to_json_bytes(&JsonValue::from_milli(125))).unwrap(), "0.125");
    assert_eq!(String::from_utf8(to_json_bytes(&JsonValue::from_milli(0))).unwrap(), "0");
    assert_eq!(String::from_utf8(to_json_bytes(&JsonValue::from_milli(2300))).unwrap(), "2.3");
}

// Encode-then-parse round trip: a response in the adapter's own wire shape
// carrying a text and a tool call reconstructs both.
#[test]
fn test_anthropic_round_trip() {
    let provider = AnthropicProvider::new();
    let body = "{\"model\":\"anthropic-3-haiku\",\"content\":[{\"type\":\"text\",\"text\":\"Sure.\"},{\"type\":\"tool_use\",\"id\":\"tu_9\",\"name\":\"lookup\",\"input\":{\"q\":\"rust\"}}],\"stop_reason\":\"tool_use\",\"usage\":{\"input_tokens\":12,\"output_tokens\":7}}";
    let result = provider.parse_response(body).unwrap();
    assert_eq!(result.content.as_str(), "Sure.");
    assert_eq!(result.tool_calls.len(), 1);
    assert_eq!(result.tool_calls[0].id.as_str(), "tu_9");
    assert_eq!(result.tool_calls[0].function.name.as_str(), "lookup");
    assert_eq!(result.tool_calls[0].function.arguments.as_str(), "{\"q\":\"rust\"}");
    assert_eq!(result.finish_reason, FinishReason::ToolCalls);
}

// The same round trip for the OpenAI-compatible shape: encoding a message
// list keeps the text that a mock echoing it back would return.
#[test]
fn test_cerebras_round_trip() {
    let provider = CerebrasProvider::new();
    let messages = vec![Message::user("echo this")];
    let config = RequestConfig::new();
    let body = provider
        .build_complete_body("m", &messages, &config)
        .unwrap();
    // a mock that echoes the first message's content back
    let sent = body.get("messages").unwrap().as_array().unwrap()[0]
        .get("content")
        .unwrap()
        .as_str()
        .unwrap()
        .clone();
    let reply = format!(
        "{{\"model\":\"m\",\"choices\":[{{\"message\":{{\"content\":\"{}\"}},\"finish_reason\":\"stop\"}}],\"usage\":{{\"prompt_tokens\":1,\"completion_tokens\":1}}}}",
        sent
    );
    let result = provider.parse_response(reply.as_str()).unwrap();
    assert_eq!(result.content.as_str(), "echo this");
}
