use zino::code::StatusCode;
use zino::encode::{csv_rows, plain_text, to_jsonlines};
use zino::record::Record;
use zino::response::is_json_content_type;
use zino::text::{decimal_string, hex_fixed_string, hex_string, uuid_string};
use zino::timing::{ServerTiming, TimingMetric};
use zino::trace::TraceContext;

#[test]
fn number_formats() {
    assert_eq!(decimal_string(0), "0");
    assert_eq!(decimal_string(40213), "40213");
    assert_eq!(hex_string(255), "ff");
    assert_eq!(hex_fixed_string(0x1f, 4), "001f");
    assert_eq!(hex_fixed_string(0x12345, 2), "45");
    assert_eq!(uuid_string(u128::MAX), "ffffffff-ffff-ffff-ffff-ffffffffffff");
}

#[test]
fn traceparent_and_tracestate_format() {
    let mut t = TraceContext::with_parent(u128::MAX, 5, 0xfedcba9876543210, 0);
    assert_eq!(t.parent_id(), Some(5));
    assert_eq!(t.traceparent(), "00-ffffffffffffffffffffffffffffffff-fedcba9876543210-00");
    assert_eq!(t.tracestate(), "");
    t.push_state(String::from("a"), String::from("1"));
    t.push_state(String::from("b"), String::from("2"));
    assert_eq!(t.tracestate(), "a=1,b=2");
}

#[test]
fn server_timing_format() {
    let mut timing = ServerTiming::new();
    timing.push(TimingMetric::new(String::from("cache"), None, None));
    timing.push(TimingMetric::new(String::from("db"), Some(String::from("q")), Some(2003)));
    timing.push(TimingMetric::new(String::from("app"), None, Some(45)));
    assert_eq!(timing.len(), 3);
    assert_eq!(timing.render(), "cache, db;dur=2.003;desc=\"q\", app;dur=0.045");
}

#[test]
fn json_media_types() {
    assert!(is_json_content_type("application/json"));
    assert!(is_json_content_type("application/json; charset=utf-8"));
    assert!(is_json_content_type("application/problem+json; charset=utf-8"));
    assert!(!is_json_content_type("application/jsonlines; charset=utf-8"));
    assert!(!is_json_content_type("text/plain"));
}

#[test]
fn csv_rows_fill_missing_cells() {
    let records = vec![
        vec![(String::from("a"), String::from("1")), (String::from("b"), String::from("2"))],
        vec![(String::from("b"), String::from("3"))],
    ];
    let rows = csv_rows(&records);
    assert_eq!(rows, vec![vec!["a", "b"], vec!["1", "2"], vec!["", "3"]]);
    assert!(csv_rows(&Vec::new()).is_empty());
}

#[test]
fn plain_text_unquotes_strings() {
    assert_eq!(plain_text("\"a\\nb\""), b"a\nb".to_vec());
    assert_eq!(plain_text("[1]"), b"[1]".to_vec());
}

#[test]
fn jsonlines_of_array() {
    assert_eq!(to_jsonlines("[{\"a\":1},{\"b\":2}]").unwrap(), b"{\"a\":1}\n{\"b\":2}\n".to_vec());
    assert_eq!(to_jsonlines("[1,\"s\"]").unwrap(), b"1\n\"s\"\n".to_vec());
    assert_eq!(to_jsonlines("\"s\"").unwrap(), b"\"s\"\n".to_vec());
    assert!(to_jsonlines("[1").is_err());
}

#[test]
fn status_codes() {
    assert!(StatusCode::from_u16(99).is_none());
    assert!(StatusCode::from_u16(1000).is_none());
    let teapot = StatusCode::from_u16(418).unwrap();
    assert_eq!(teapot.as_u16(), 418);
    assert_eq!(teapot.canonical_reason(), Some(String::from("I'm a teapot")));
    assert_eq!(StatusCode::from_u16(299).unwrap().canonical_reason(), None);
}

#[test]
fn record_reads_fields() {
    let mut record = Record::with_id(9);
    let mut data = serde_json::Map::new();
    data.insert(String::from("id"), serde_json::Value::from("550e8400-e29b-41d4-a716-446655440000"));
    data.insert(String::from("name"), serde_json::Value::from("first"));
    let validation = record.read_map(&data);
    assert!(validation.is_success());
    assert_eq!(record.id(), 0x550e8400_e29b_41d4_a716_446655440000);
    assert_eq!(record.name(), "first");
    assert_eq!(record.description(), "");
    assert_eq!(record.version(), 0);
}

#[test]
fn record_rejects_bad_id() {
    let mut record = Record::with_id(9);
    let mut data = serde_json::Map::new();
    data.insert(String::from("id"), serde_json::Value::from("not-a-uuid"));
    data.insert(String::from("description"), serde_json::Value::from("d"));
    let validation = record.read_map(&data);
    assert!(!validation.is_success());
    assert_eq!(record.id(), 9);
    assert_eq!(record.description(), "d");
    assert_eq!(validation.into_map_text().starts_with("{\"id\":\""), true);
}

#[test]
fn new_records_get_distinct_ids() {
    let a = Record::new();
    let b = Record::new();
    assert_ne!(a.id(), b.id());
    assert_eq!(a.status(), "");
}

#[test]
fn quoting_matches_serde_json() {
    let text = "a\u{1}\"\\\n\t\u{8}\u{c}\r\u{1f}é/\u{7f}";
    assert_eq!(zino::json::quote(text), serde_json::to_string(text).unwrap());
    assert_eq!(zino::json::quote("x\u{1}"), "\"x\\u0001\"");
}
