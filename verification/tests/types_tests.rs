use rust_ai_sdk::types::{ModelId, Usage, ToolCallAccumulator, ToolCallDelta};

#[test]
fn test_model_id_parse() {
    let id = ModelId::parse("cerebras/llama3.1-70b").unwrap();
    assert_eq!(id.provider.as_str(), "cerebras");
    assert_eq!(id.model.as_str(), "llama3.1-70b");

    assert!(ModelId::parse("invalid").is_err());
    assert!(ModelId::parse("/model").is_err());
    assert!(ModelId::parse("provider/").is_err());
}

// Identifier round trip: reassembling the parsed halves gives back the
// original string.
#[test]
fn test_model_id_round_trip() {
    let originals = ["cerebras/llama3.1-70b", "gemini/models/alpha", "a/b"];
    for s in originals {
        let id = ModelId::parse(s).unwrap();
        let rebuilt = format!("{}/{}", id.provider, id.model);
        assert_eq!(rebuilt.as_str(), s);
    }
}

#[test]
fn test_usage_merge() {
    let mut a = Usage {
        input_tokens: 10,
        output_tokens: 5,
        ..Default::default()
    };
    let b = Usage {
        input_tokens: 8,
        output_tokens: 20,
        ..Default::default()
    };
    a.merge(&b);
    assert_eq!(a.input_tokens, 10);
    assert_eq!(a.output_tokens, 20);
}

// Usage merging over a whole sequence is the field-wise maximum.
#[test]
fn test_usage_merge_sequence_maximum() {
    let inputs = [
        Usage { input_tokens: 3, output_tokens: 9, cache_read_input_tokens: 1, cache_creation_input_tokens: 0 },
        Usage { input_tokens: 7, output_tokens: 2, cache_read_input_tokens: 0, cache_creation_input_tokens: 5 },
        Usage { input_tokens: 5, output_tokens: 9, cache_read_input_tokens: 4, cache_creation_input_tokens: 1 },
    ];
    let mut acc = Usage::new();
    for u in &inputs {
        acc.merge(u);
    }
    assert_eq!(acc.input_tokens, 7);
    assert_eq!(acc.output_tokens, 9);
    assert_eq!(acc.cache_read_input_tokens, 4);
    assert_eq!(acc.cache_creation_input_tokens, 5);
}

#[test]
fn test_usage_total() {
    let u = Usage { input_tokens: 5, output_tokens: 3, ..Default::default() };
    assert_eq!(u.total(), 8);
}

// Tool-delta concatenation: fragments delivered in order under one index
// reassemble the original string.
#[test]
fn test_tool_delta_concatenation() {
    let mut acc = ToolCallAccumulator::new();
    acc.apply(&ToolCallDelta {
        index: 0,
        id: Some("call_1".to_string()),
        function_name: Some("get_weather".to_string()),
        function_arguments: Some("{\"loc".to_string()),
    });
    acc.apply(&ToolCallDelta {
        index: 0,
        id: None,
        function_name: None,
        function_arguments: Some("ation\":\"Tok".to_string()),
    });
    acc.apply(&ToolCallDelta {
        index: 0,
        id: None,
        function_name: None,
        function_arguments: Some("yo\"}".to_string()),
    });
    let calls = acc.finalize();
    assert_eq!(calls.len(), 1);
    assert_eq!(calls[0].id.as_str(), "call_1");
    assert_eq!(calls[0].tool_type.as_str(), "function");
    assert_eq!(calls[0].function.name.as_str(), "get_weather");
    assert_eq!(calls[0].function.arguments.as_str(), "{\"location\":\"Tokyo\"}");
}

// A builder whose id stayed empty is dropped on finalize.
#[test]
fn test_phantom_builders_dropped() {
    let mut acc = ToolCallAccumulator::new();
    acc.apply(&ToolCallDelta {
        index: 1,
        id: Some("real".to_string()),
        function_name: Some("f".to_string()),
        function_arguments: Some("{}".to_string()),
    });
    let calls = acc.finalize();
    assert_eq!(calls.len(), 1);
    assert_eq!(calls[0].id.as_str(), "real");
}
