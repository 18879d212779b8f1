use rust_ai_sdk::providers::cerebras::CerebrasProvider;
use rust_ai_sdk::providers::EventDecoder;
use rust_ai_sdk::stream::{CompletionStream, StreamStep};
use rust_ai_sdk::client::{RetryPolicy, RetryState, RetryAction, HttpOutcome, executor_step,
    initial_state, classify_response, parse_retry_after};
use rust_ai_sdk::error::Error;
use rust_ai_sdk::types::FinishReason;

fn cerebras_stream(model: &str) -> CompletionStream {
    let provider = CerebrasProvider::new();
    CompletionStream::new(EventDecoder::Cerebras(provider.create_parser()), model.to_string())
}

fn drain(stream: &mut CompletionStream) -> Vec<String> {
    let mut texts: Vec<String> = Vec::new();
    loop {
        match stream.next_step() {
            StreamStep::Chunk(chunk) => {
                if let Some(t) = chunk.text() {
                    texts.push(t.clone());
                }
            },
            StreamStep::Skipped => continue,
            StreamStep::NeedInput | StreamStep::Done => break,
            StreamStep::Failed(_) => panic!("decode failed"),
        }
    }
    texts
}

// Simple text streaming over the OpenAI-compatible wire protocol: three text
// deltas, a usage-only event, then the sentinel.
#[test]
fn test_simple_text_streaming_scenario() {
    let mut stream = cerebras_stream("llama3.1-70b");
    let wire: &[u8] = b"data: {\"choices\":[{\"delta\":{\"content\":\"Hel\"},\"finish_reason\":null}]}\n\n\
data: {\"choices\":[{\"delta\":{\"content\":\"lo\"},\"finish_reason\":null}]}\n\n\
data: {\"choices\":[{\"delta\":{\"content\":\"!\"},\"finish_reason\":\"stop\"}]}\n\n\
data: {\"choices\":[],\"usage\":{\"prompt_tokens\":5,\"completion_tokens\":3}}\n\n\
data: [DONE]\n\n";
    stream.feed(wire);
    let texts = drain(&mut stream);
    assert_eq!(texts, vec!["Hel".to_string(), "lo".to_string(), "!".to_string()]);
    assert!(stream.is_done());
    let result = stream.finalize().unwrap();
    assert_eq!(result.content.as_str(), "Hello!");
    assert_eq!(result.usage.input_tokens, 5);
    assert_eq!(result.usage.output_tokens, 3);
    assert_eq!(result.finish_reason, FinishReason::Stop);
}

#[test]
fn test_stream_accumulation() {
    let mut stream = cerebras_stream("test-model");
    stream.feed(b"data: {\"choices\":[{\"delta\":{\"content\":\"Hello\"},\"finish_reason\":null}]}\n\n");
    stream.feed(b"data: {\"choices\":[{\"delta\":{\"content\":\" World\"},\"finish_reason\":null}]}\n\n");
    stream.feed(b"data: {\"choices\":[],\"usage\":{\"prompt_tokens\":10,\"completion_tokens\":5}}\n\n");
    stream.feed(b"data: [DONE]\n\n");

    let texts = drain(&mut stream);
    assert_eq!(texts, vec!["Hello".to_string(), " World".to_string()]);

    let result = stream.finalize().unwrap();
    assert_eq!(result.content.as_str(), "Hello World");
    assert_eq!(result.usage.input_tokens, 10);
    assert_eq!(result.usage.output_tokens, 5);
}

// Finalizing a stream twice yields the stream-consumed error on the second
// call.
#[test]
fn test_finalize_twice() {
    let mut stream = cerebras_stream("m");
    stream.feed(b"data: [DONE]\n\n");
    let _ = drain(&mut stream);
    assert!(stream.finalize().is_ok());
    match stream.finalize() {
        Err(Error::StreamConsumed) => {},
        _ => panic!("second finalize must yield the stream-consumed error"),
    }
}

// A payload containing the sentinel text inside JSON is not treated as the
// end of the stream.
#[test]
fn test_done_mid_payload_not_end() {
    let mut stream = cerebras_stream("m");
    stream.feed(b"data: {\"choices\":[{\"delta\":{\"content\":\"x [DONE] y\"},\"finish_reason\":null}]}\n\n");
    stream.feed(b"data: [DONE]\n\n");
    let texts = drain(&mut stream);
    assert_eq!(texts, vec!["x [DONE] y".to_string()]);
    let result = stream.finalize().unwrap();
    assert_eq!(result.content.as_str(), "x [DONE] y");
}

// A tool-call stream that carries the id only on the first delta still
// reconstructs the whole call.
#[test]
fn test_tool_id_only_on_first_delta() {
    let mut stream = cerebras_stream("m");
    stream.feed(b"data: {\"choices\":[{\"delta\":{\"tool_calls\":[{\"index\":0,\"id\":\"c1\",\"function\":{\"name\":\"f\",\"arguments\":\"{\\\"a\\\":\"}}]},\"finish_reason\":null}]}\n\n");
    stream.feed(b"data: {\"choices\":[{\"delta\":{\"tool_calls\":[{\"index\":0,\"function\":{\"arguments\":\"1}\"}}]},\"finish_reason\":null}]}\n\n");
    stream.feed(b"data: [DONE]\n\n");
    let _ = drain(&mut stream);
    let result = stream.finalize().unwrap();
    assert_eq!(result.tool_calls.len(), 1);
    assert_eq!(result.tool_calls[0].id.as_str(), "c1");
    assert_eq!(result.tool_calls[0].function.name.as_str(), "f");
    assert_eq!(result.tool_calls[0].function.arguments.as_str(), "{\"a\":1}");
}

// A decoder error marks the stream done and surfaces on that step.
#[test]
fn test_parse_error_aborts_stream() {
    let mut stream = cerebras_stream("m");
    stream.feed(b"data: not json\n\n");
    match stream.next_step() {
        StreamStep::Failed(Error::Parse(_)) => {},
        _ => panic!("malformed JSON must fail the stream"),
    }
    assert!(stream.is_done());
}

// Rate-limit retry: a 429 with a one second Retry-After sleeps about a
// second, then a 200 proceeds; exactly two requests were made.
#[test]
fn test_rate_limit_retry_scenario() {
    let policy = RetryPolicy::new();
    let mut st: RetryState = initial_state(&policy);

    let o1 = HttpOutcome::Status {
        status: 429,
        retry_after_secs: parse_retry_after("1"),
        body: String::new(),
    };
    match executor_step(&policy, &mut st, &o1, 1000) {
        RetryAction::Sleep(ms) => assert_eq!(ms, 1000),
        _ => panic!("first attempt must retry"),
    }
    assert_eq!(st.attempt, 1);

    let o2 = HttpOutcome::Status {
        status: 200,
        retry_after_secs: None,
        body: String::new(),
    };
    match executor_step(&policy, &mut st, &o2, 1000) {
        RetryAction::Proceed => {},
        _ => panic!("second attempt must proceed"),
    }
    assert_eq!(st.attempt, 2);
}

// Jitter scales the sleep: 850 per mille of 500 ms is 425 ms.
#[test]
fn test_backoff_jitter_bounds() {
    let policy = RetryPolicy::new();
    let mut st = initial_state(&policy);
    let o = HttpOutcome::Status {
        status: 500,
        retry_after_secs: None,
        body: String::new(),
    };
    match executor_step(&policy, &mut st, &o, 850) {
        RetryAction::Sleep(ms) => assert_eq!(ms, 425),
        _ => panic!("server error must retry"),
    }
    // backoff doubled for the next round
    assert_eq!(st.backoff_ms, 1000);
}

// 5xx exhaustion: with the default ceiling of three, every attempt returning
// 500 makes exactly three requests and ends in a server error.
#[test]
fn test_server_error_exhaustion_scenario() {
    let policy = RetryPolicy::new();
    let mut st = initial_state(&policy);
    let mut sends: u32 = 0;
    let outcome = HttpOutcome::Status {
        status: 500,
        retry_after_secs: None,
        body: String::new(),
    };
    loop {
        sends += 1;
        match executor_step(&policy, &mut st, &outcome, 1000) {
            RetryAction::Sleep(_) => continue,
            RetryAction::Fail(Error::Server(500)) => break,
            _ => panic!("unexpected action"),
        }
    }
    assert_eq!(sends, policy.max_retries);
}

// Classification of non-2xx responses.
#[test]
fn test_classify_response_kinds() {
    assert!(matches!(classify_response(401, None, ""), Error::Unauthorized));
    assert!(matches!(
        classify_response(429, Some(3), ""),
        Error::RateLimited { retry_after_secs: Some(3) }
    ));
    assert!(matches!(classify_response(503, None, ""), Error::Server(503)));
    match classify_response(400, None, "{\"error\":{\"message\":\"bad field\"}}") {
        Error::Api { status, message } => {
            assert_eq!(status, 400);
            assert_eq!(message.as_str(), "bad field");
        },
        _ => panic!("expected an api error"),
    }
    match classify_response(418, None, "plain text") {
        Error::Api { message, .. } => assert_eq!(message.as_str(), "plain text"),
        _ => panic!("expected an api error"),
    }
}

// Classification correctness: retryable exactly for rate-limited, server and
// timeout errors.
#[test]
fn test_is_retryable_classification() {
    assert!(Error::RateLimited { retry_after_secs: None }.is_retryable());
    assert!(Error::Server(500).is_retryable());
    assert!(Error::Timeout.is_retryable());
    assert!(!Error::Unauthorized.is_retryable());
    assert!(!Error::Api { status: 400, message: String::new() }.is_retryable());
    assert!(!Error::Parse(String::new()).is_retryable());
    assert!(!Error::InvalidModel(String::new()).is_retryable());
    assert!(!Error::MissingApiKey(String::new()).is_retryable());
    assert!(!Error::Transport(String::new()).is_retryable());
    assert!(!Error::StreamConsumed.is_retryable());
    assert!(!Error::Config(String::new()).is_retryable());
}

#[test]
fn test_retry_after_parsing() {
    assert_eq!(parse_retry_after("1"), Some(1));
    assert_eq!(parse_retry_after("120"), Some(120));
    assert_eq!(parse_retry_after("+7"), Some(7));
    assert_eq!(parse_retry_after(""), None);
    assert_eq!(parse_retry_after("soon"), None);
    assert_eq!(parse_retry_after("1.5"), None);
    assert_eq!(parse_retry_after("99999999999999999999999"), None);
}

// Timeouts retry and surface as the timeout error on exhaustion; other
// network failures are terminal at once.
#[test]
fn test_timeout_and_transport_classification() {
    let policy = RetryPolicy::new();
    let mut st = initial_state(&policy);
    match executor_step(&policy, &mut st, &HttpOutcome::TimedOut, 1000) {
        RetryAction::Sleep(ms) => assert_eq!(ms, 500),
        _ => panic!("a timeout must retry"),
    }
    match executor_step(&policy, &mut st, &HttpOutcome::TimedOut, 1000) {
        RetryAction::Sleep(ms) => assert_eq!(ms, 1000),
        _ => panic!("a timeout must retry"),
    }
    match executor_step(&policy, &mut st, &HttpOutcome::TimedOut, 1000) {
        RetryAction::Fail(Error::Timeout) => {},
        _ => panic!("exhaustion must surface the timeout"),
    }

    let mut st2 = initial_state(&policy);
    match executor_step(
        &policy,
        &mut st2,
        &HttpOutcome::NetFailed("broken pipe".to_string()),
        1000,
    ) {
        RetryAction::Fail(Error::Transport(m)) => assert_eq!(m.as_str(), "broken pipe"),
        _ => panic!("other network failures are terminal"),
    }
    assert_eq!(st2.attempt, 1);
}

// Backoff growth is capped at the policy's maximum.
#[test]
fn test_backoff_cap() {
    let policy = RetryPolicy {
        max_retries: 10,
        initial_backoff_ms: 20000,
        backoff_multiplier_pct: 200,
        max_backoff_ms: 30000,
    };
    let mut st = initial_state(&policy);
    let o = HttpOutcome::Status { status: 500, retry_after_secs: None, body: String::new() };
    match executor_step(&policy, &mut st, &o, 1000) {
        RetryAction::Sleep(ms) => assert_eq!(ms, 20000),
        _ => panic!("must retry"),
    }
    assert_eq!(st.backoff_ms, 30000);
}
