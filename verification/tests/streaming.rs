use spider_client::json::JsonValue;
use spider_client::stream::LineSplitter;
use spider_client::stream::StreamEvent;
use spider_client::stream::run_crawl_stream;

fn json_value(s: &str) -> serde_json::Value {
    serde_json::from_str(s).unwrap()
}

#[test]
fn splitter_cuts_lines_across_chunks() {
    let mut sp = LineSplitter::new();
    let lines = sp.push_chunk(b"{\"a\"");
    assert_eq!(lines.len(), 0);
    let lines = sp.push_chunk(b":1}\n{\"b\":2}\n{\"c\"");
    assert_eq!(lines.len(), 2);
    assert_eq!(lines[0], b"{\"a\":1}");
    assert_eq!(lines[1], b"{\"b\":2}");
    let lines = sp.push_chunk(b":3}");
    assert_eq!(lines.len(), 0);
    assert_eq!(sp.finish(), b"{\"c\":3}");
}

#[test]
fn three_lines_then_transport_failure() {
    let events = vec![
        StreamEvent::Chunk(b"{\"n\":1}\n".to_vec()),
        StreamEvent::Chunk(b"{\"n\":2}\n{\"n\":3}\n".to_vec()),
        StreamEvent::TransportFailed,
    ];
    let (deliveries, result) = run_crawl_stream(&events);
    assert_eq!(deliveries.len(), 3);
    assert_eq!(deliveries[0], json_value("{\"n\":1}"));
    assert_eq!(deliveries[1], json_value("{\"n\":2}"));
    assert_eq!(deliveries[2], json_value("{\"n\":3}"));
    assert!(matches!(result, JsonValue::Null));
}

#[test]
fn failure_abandons_the_incomplete_tail() {
    let events = vec![
        StreamEvent::Chunk(b"{\"n\":1}\n{\"n\":2".to_vec()),
        StreamEvent::TransportFailed,
    ];
    let (deliveries, result) = run_crawl_stream(&events);
    assert_eq!(deliveries.len(), 1);
    assert_eq!(deliveries[0], json_value("{\"n\":1}"));
    assert!(matches!(result, JsonValue::Null));
}

#[test]
fn normal_end_tries_the_trailing_line() {
    let events = vec![StreamEvent::Chunk(b"{\"n\":1}\n{\"n\":2}".to_vec())];
    let (deliveries, result) = run_crawl_stream(&events);
    assert_eq!(deliveries.len(), 2);
    assert_eq!(deliveries[1], json_value("{\"n\":2}"));
    assert!(matches!(result, JsonValue::Null));
}

#[test]
fn malformed_lines_are_skipped_not_fatal() {
    let events = vec![
        StreamEvent::Chunk(b"{\"n\":1}\ngarbage\n".to_vec()),
        StreamEvent::Chunk(b"{\"n\":3}\n".to_vec()),
    ];
    let (deliveries, result) = run_crawl_stream(&events);
    assert_eq!(deliveries.len(), 2);
    assert_eq!(deliveries[0], json_value("{\"n\":1}"));
    assert_eq!(deliveries[1], json_value("{\"n\":3}"));
    assert!(matches!(result, JsonValue::Null));
}

#[test]
fn empty_stream_delivers_nothing() {
    let events: Vec<StreamEvent> = vec![];
    let (deliveries, result) = run_crawl_stream(&events);
    assert_eq!(deliveries.len(), 0);
    assert!(matches!(result, JsonValue::Null));
}
