use phenotype_shared::ports::error::PortError;
use std::time::Duration;

use phenotype_shared::ports::event::{EventEnvelope, EventMetadata};
use phenotype_shared::ports::http::{HttpMethod, HttpRequest};
use phenotype_shared::ports::identifier::{Identifier, StringId, U64Id};
use phenotype_shared::ports::logger::LogLevel;
use phenotype_shared::ports::query::Paginated;
use phenotype_shared::ports::queue::Message;
use phenotype_shared::ports::repository::{CountStep, PageCount};

#[test]
fn test_string_id() {
    let id = StringId::new("test-123");
    assert_eq!(id.as_str(), "test-123");
    assert_eq!(id.to_string(), "test-123");
}

#[test]
fn test_string_id_from_uuid() {
    let id = StringId::from_uuid();
    assert!(!id.as_str().is_empty());
}

#[test]
fn string_ids_compare_by_text() {
    assert!(StringId::new("a") == StringId::new("a"));
    assert!(StringId::new("a") != StringId::new("b"));
    assert!(StringId::from("x".to_string()) == StringId::new("x"));
    assert_eq!(U64Id::new(42).to_string(), "42");
    assert_eq!(U64Id::from(7u64), U64Id::new(7));
}

#[test]
fn test_message_creation() {
    let msg = Message::new("hello".to_string())
        .with_correlation_id("corr-123")
        .with_header("key", "value");
    assert!(!msg.id.is_empty());
    assert_eq!(msg.correlation_id.as_deref(), Some("corr-123"));
    assert_eq!(msg.headers.get("key"), Some(&"value".to_string()));
}

#[test]
fn message_delay_and_header_replacement() {
    let msg = Message::new(1u8)
        .with_header("k", "v1")
        .with_header("k", "v2")
        .with_delay(Duration::from_millis(250));
    assert_eq!(msg.headers.len(), 1);
    assert_eq!(msg.headers.get("k"), Some(&"v2".to_string()));
    assert_eq!(msg.delay, Some(Duration::from_millis(250)));
}

#[test]
fn test_paginated() {
    let items = vec![1, 2, 3, 4, 5];
    let paginated = Paginated::new(items, 1, 2, 5);
    assert_eq!(paginated.total_pages(), 3);
    assert!(paginated.has_next());
    assert!(!paginated.has_prev());
}

#[test]
fn pagination_edges() {
    let p: Paginated<u8> = Paginated::new(vec![], 3, 2, 6);
    assert_eq!(p.total_pages(), 3);
    assert!(!p.has_next());
    assert!(p.has_prev());
    let empty: Paginated<u8> = Paginated::new(vec![], 1, 10, 0);
    assert_eq!(empty.total_pages(), 0);
}

#[test]
fn test_log_level() {
    assert_eq!(LogLevel::from_str("debug"), LogLevel::Debug);
    assert_eq!(LogLevel::from_str("WARN"), LogLevel::Warn);
    assert_eq!(LogLevel::from_str("invalid"), LogLevel::Info);
}

#[test]
fn log_level_names() {
    assert_eq!(LogLevel::from_str("Warning"), LogLevel::Warn);
    assert_eq!(LogLevel::from_str("TRACE"), LogLevel::Trace);
    assert_eq!(LogLevel::from_str("error"), LogLevel::Error);
    assert_eq!(LogLevel::from_str(""), LogLevel::Info);
    assert!(LogLevel::Trace < LogLevel::Error);
}

#[test]
fn http_request_builders() {
    let req = HttpRequest::new(HttpMethod::Post, "http://x/y")
        .with_header("Accept", "text/plain")
        .with_json_body(b"{}".to_vec())
        .with_timeout(Duration::from_secs(3));
    assert_eq!(req.method, HttpMethod::Post);
    assert_eq!(req.url, "http://x/y");
    assert_eq!(req.headers.get("Content-Type"), Some(&"application/json".to_string()));
    assert_eq!(req.headers.get("Accept"), Some(&"text/plain".to_string()));
    assert_eq!(req.body, Some(b"{}".to_vec()));
    assert_eq!(req.timeout, Some(Duration::from_secs(3)));
}

#[test]
fn event_metadata_and_envelopes() {
    let meta = EventMetadata::new()
        .with_correlation_id("c".to_string())
        .with_causation_id("d".to_string());
    assert_eq!(meta.id.len(), 36);
    assert_eq!(meta.correlation_id, Some("c".to_string()));
    assert_eq!(meta.causation_id, Some("d".to_string()));
    let env = EventEnvelope::new(2u32, "Doubled", None, Some("cause".to_string()));
    let id = env.id.clone();
    let mapped = env.map(|x| x * 2);
    assert_eq!(mapped.payload, 4);
    assert_eq!(mapped.id, id);
    assert_eq!(mapped.event_type, "Doubled");
    assert_eq!(mapped.causation_id, Some("cause".to_string()));
}

#[test]
fn counting_walks_full_pages() {
    let start = PageCount::start();
    let next = match start.after_page(1000) {
        CountStep::Fetch(next) => next,
        other => panic!("unexpected {:?}", other),
    };
    assert_eq!(next, PageCount { page: 1, total: 1000 });
    assert_eq!(next.after_page(7), CountStep::Done(1007));
}

#[test]
fn string_ids_come_from_slices_and_strings() {
    let a = StringId::from("order-1");
    let b = StringId::from("order-1".to_string());
    assert_eq!(a.as_str(), "order-1");
    assert!(a == b);
}

#[test]
fn port_errors_read_as_messages() {
    assert_eq!(PortError::NotFound("u-1".to_string()).message(), "Not found: u-1");
    assert_eq!(PortError::Timeout("5s".to_string()).message(), "Timeout error: 5s");
    assert_eq!(PortError::ConfigError("x".to_string()).message(), "Configuration error: x");
}

#[test]
fn page_count_reaches_the_largest_total() {
    let total = u64::MAX - 9;
    let p: Paginated<u8> = Paginated::new(vec![], 1, 10, total);
    let expected = ((total as u128 + 9) / 10) as u32;
    assert_eq!(p.total_pages(), expected);
}
