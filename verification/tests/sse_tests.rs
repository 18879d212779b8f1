use rust_ai_sdk::sse::SseParser;

#[test]
fn test_simple_event() {
    let mut parser = SseParser::new();
    parser.feed(b"data: hello world\n\n");

    let event = parser.next_event().unwrap();
    assert_eq!(event.data.as_str(), "hello world");
    assert!(event.event.is_none());
}

#[test]
fn test_multiline_data() {
    let mut parser = SseParser::new();
    parser.feed(b"data: line1\ndata: line2\ndata: line3\n\n");

    let event = parser.next_event().unwrap();
    assert_eq!(event.data.as_str(), "line1\nline2\nline3");
}

#[test]
fn test_event_type() {
    let mut parser = SseParser::new();
    parser.feed(b"event: message\ndata: payload\n\n");

    let event = parser.next_event().unwrap();
    assert_eq!(event.event.as_ref().unwrap().as_str(), "message");
    assert_eq!(event.data.as_str(), "payload");
}

#[test]
fn test_crlf() {
    let mut parser = SseParser::new();
    parser.feed(b"data: hello\r\n\r\n");

    let event = parser.next_event().unwrap();
    assert_eq!(event.data.as_str(), "hello");
}

#[test]
fn test_partial_event() {
    let mut parser = SseParser::new();
    parser.feed(b"data: hel");
    assert!(parser.next_event().is_none());

    parser.feed(b"lo\n\n");
    let event = parser.next_event().unwrap();
    assert_eq!(event.data.as_str(), "hello");
}

#[test]
fn test_multiple_events() {
    let mut parser = SseParser::new();
    parser.feed(b"data: first\n\ndata: second\n\n");

    let event1 = parser.next_event().unwrap();
    assert_eq!(event1.data.as_str(), "first");

    let event2 = parser.next_event().unwrap();
    assert_eq!(event2.data.as_str(), "second");
}

#[test]
fn test_coalesced_frames() {
    let mut parser = SseParser::new();
    // Multiple events in one TCP frame
    parser.feed(b"data: a\n\ndata: b\n\ndata: c\n\n");

    assert_eq!(parser.next_event().unwrap().data.as_str(), "a");
    assert_eq!(parser.next_event().unwrap().data.as_str(), "b");
    assert_eq!(parser.next_event().unwrap().data.as_str(), "c");
    assert!(parser.next_event().is_none());
}

#[test]
fn test_done_marker() {
    assert!(SseParser::is_done("[DONE]"));
    assert!(!SseParser::is_done("data"));
}

#[test]
fn test_json_data() {
    let mut parser = SseParser::new();
    parser.feed(b"data: {\"choices\":[{\"delta\":{\"content\":\"Hi\"}}]}\n\n");

    let event = parser.next_event().unwrap();
    assert!(event.data.as_str().starts_with('{'));
    assert!(event.data.as_str().ends_with('}'));
}

#[test]
fn test_comment_and_unknown_fields() {
    let mut parser = SseParser::new();
    parser.feed(b": a comment line\nretry: 500\ndata: x\nid: 7\n\n");

    let event = parser.next_event().unwrap();
    assert_eq!(event.data.as_str(), "x");
    assert_eq!(event.id.as_ref().unwrap().as_str(), "7");
}

#[test]
fn test_empty_data_event_discarded() {
    let mut parser = SseParser::new();
    parser.feed(b"event: ping\n\ndata: real\n\n");

    let event = parser.next_event().unwrap();
    assert_eq!(event.data.as_str(), "real");
}

// An SSE event split across feeds at every byte boundary still parses
// correctly.
#[test]
fn test_split_at_every_byte_boundary() {
    let bytes: &[u8] = b"event: message\ndata: hello\r\ndata: world\nid: 42\n\n";
    for cut in 0..bytes.len() {
        let mut parser = SseParser::new();
        parser.feed(&bytes[..cut]);
        let early = parser.next_event();
        if let Some(ev) = early {
            panic!("event complete too early at {}: {}", cut, ev.data);
        }
        parser.feed(&bytes[cut..]);
        let event = parser.next_event().unwrap();
        assert_eq!(event.event.as_ref().unwrap().as_str(), "message");
        assert_eq!(event.data.as_str(), "hello\nworld");
        assert_eq!(event.id.as_ref().unwrap().as_str(), "42");
    }
}

// Feeding a stream of three events in several partitions always yields the
// same three events.
#[test]
fn test_partition_completeness() {
    let bytes: &[u8] = b"data: one\n\ndata: two\n\nevent: e\ndata: three\n\n";
    let cuts: [usize; 4] = [1, 7, 13, 30];
    for cut in cuts {
        let mut parser = SseParser::new();
        parser.feed(&bytes[..cut]);
        let mut collected: Vec<String> = Vec::new();
        while let Some(ev) = parser.next_event() {
            collected.push(ev.data);
        }
        parser.feed(&bytes[cut..]);
        while let Some(ev) = parser.next_event() {
            collected.push(ev.data);
        }
        assert_eq!(collected, vec!["one".to_string(), "two".to_string(), "three".to_string()]);
    }
}

#[test]
fn test_reset_and_buffer_len() {
    let mut parser = SseParser::new();
    parser.feed(b"data: abc");
    assert_eq!(parser.buffer_len(), 9);
    parser.reset();
    assert_eq!(parser.buffer_len(), 0);
    assert!(parser.next_event().is_none());
}

// Multi-byte UTF-8 in field values survives decoding.
#[test]
fn test_utf8_values() {
    let mut parser = SseParser::new();
    parser.feed("data: gr\u{00fc}n \u{2713}\n\n".as_bytes());
    let event = parser.next_event().unwrap();
    assert_eq!(event.data.as_str(), "gr\u{00fc}n \u{2713}");
}

// A field value that is not UTF-8 is skipped for that field only.
#[test]
fn test_invalid_utf8_field_skipped() {
    let mut parser = SseParser::new();
    parser.feed(b"event: \xff\xfe\ndata: ok\n\n");
    let event = parser.next_event().unwrap();
    assert!(event.event.is_none());
    assert_eq!(event.data.as_str(), "ok");
}
