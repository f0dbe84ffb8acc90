use zino::code::{ResponseCode, StatusCode};
use zino::error::Error;
use zino::response::{
    http_parts, DataTransformer, Encoding, RecordingSink, RequestInfo, Response,
};
use zino::trace::TraceContext;
use zino::validation::Validation;

fn sink() -> RecordingSink {
    RecordingSink::new()
}

fn body_text(res: &Response) -> String {
    String::from_utf8(res.read_bytes().unwrap()).unwrap()
}

#[test]
fn new_ok_is_success_with_default_message() {
    let res = Response::new(StatusCode::ok());
    assert!(res.is_success());
    assert_eq!(res.status_code(), 200);
    assert_eq!(res.message(), Some("OK"));
    assert_eq!(body_text(&res), r#"{"status":200,"success":true,"message":"OK"}"#);
}

#[test]
fn new_error_is_failure_with_detail_and_title() {
    let res = Response::new(StatusCode::internal_server_error());
    assert!(!res.is_success());
    assert_eq!(res.status_code(), 500);
    assert_eq!(res.content_type(), "application/problem+json; charset=utf-8");
    assert_eq!(
        body_text(&res),
        r#"{"title":"Internal Server Error","status":500,"detail":"Internal Server Error","success":false}"#
    );
}

#[test]
fn failed_serialization_becomes_detail() {
    let mut res = Response::new(StatusCode::internal_server_error());
    let mut bad = std::collections::BTreeMap::new();
    bad.insert((1, 2), 3);
    let err = serde_json::to_string(&bad).unwrap_err();
    let text = err.to_string();
    res.set_data(Err(Error::new(text.clone())));
    assert!(!res.is_success());
    assert_eq!(res.status_code(), 500);
    assert_eq!(res.message(), Some(text.as_str()));
    let body: serde_json::Value = serde_json::from_slice(&res.read_bytes().unwrap()).unwrap();
    assert_eq!(body["detail"], serde_json::Value::String(text));
    assert!(body.get("data").is_none());
}

#[test]
fn set_data_keeps_raw_json() {
    let mut res = Response::new(StatusCode::ok());
    res.set_data(Ok(String::from("[1,2]")));
    assert_eq!(body_text(&res), r#"{"status":200,"success":true,"message":"OK","data":[1,2]}"#);
}

#[test]
fn failed_validation_gives_bad_request_with_field_map() {
    let mut validation = Validation::new();
    validation.record_fail(String::from("name"), String::from("must not be empty"));
    let res = Response::from_validation(validation);
    assert_eq!(res.status_code(), 400);
    assert!(!res.is_success());
    let body: serde_json::Value = serde_json::from_slice(&res.read_bytes().unwrap()).unwrap();
    let mut expected = serde_json::Map::new();
    expected.insert(String::from("name"), serde_json::Value::from("must not be empty"));
    assert_eq!(body["data"], serde_json::Value::Object(expected));
    assert_eq!(body["status"], serde_json::Value::from(400));
}

#[test]
fn successful_validation_gives_ok() {
    let res = Response::from_validation(Validation::new());
    assert_eq!(res.status_code(), 200);
    assert!(res.is_success());
}

#[test]
fn default_is_ok() {
    let res = Response::default();
    assert_eq!(res.status_code(), 200);
    assert!(res.is_success());
}

#[test]
fn set_code_escalates_and_keeps_payload() {
    let mut res = Response::new(StatusCode::ok());
    res.set_data(Ok(String::from("7")));
    res.set_code(StatusCode::from_u16(404).unwrap());
    assert!(!res.is_success());
    assert_eq!(res.message(), Some("Not Found"));
    assert_eq!(
        body_text(&res),
        r#"{"title":"Not Found","status":404,"detail":"Not Found","success":false,"data":7}"#
    );
}

#[test]
fn set_message_follows_success_flag() {
    let mut ok = Response::new(StatusCode::ok());
    ok.set_message(String::from("done \"now\""));
    assert_eq!(ok.message(), Some("done \"now\""));
    assert_eq!(body_text(&ok), r#"{"status":200,"success":true,"message":"done \"now\""}"#);
    let mut bad = Response::new(StatusCode::bad_request());
    bad.set_error_message(Error::new(String::from("broken")));
    assert!(!bad.is_success());
    assert_eq!(bad.message(), Some("broken"));
}

#[test]
fn content_type_is_stable_and_overridable() {
    let mut res = Response::new(StatusCode::ok());
    assert_eq!(res.content_type(), res.content_type());
    assert_eq!(res.content_type(), "application/json; charset=utf-8");
    res.set_content_type(String::from("text/plain"));
    assert_eq!(res.content_type(), "text/plain");
    assert_eq!(res.content_type(), res.content_type());
}

#[test]
fn has_context_needs_trace_and_request_id() {
    let mut res = Response::new(StatusCode::ok());
    assert!(!res.has_context());
    res.set_request_id(7);
    assert!(!res.has_context());
    res.set_trace_context(Some(TraceContext::from_ids(1, 2)));
    assert!(res.has_context());
    res.set_request_id(0);
    assert!(!res.has_context());
    assert_eq!(res.trace_id(), 1);
}

#[test]
fn json_response_round_trips() {
    let mut value = serde_json::Map::new();
    value.insert(String::from("id"), serde_json::Value::from(3));
    value.insert(String::from("tags"), serde_json::Value::from(vec!["a", "b"]));
    let value = serde_json::Value::Object(value);
    let mut res = Response::new(StatusCode::ok());
    res.set_json_response(value.clone().to_string());
    assert_eq!(res.encoding(), Encoding::Transform(DataTransformer::Json));
    let decoded: serde_json::Value = serde_json::from_slice(&res.read_bytes().unwrap()).unwrap();
    assert_eq!(decoded, value);
}

fn rows() -> serde_json::Value {
    let mut first = serde_json::Map::new();
    first.insert(String::from("a"), serde_json::Value::from(1));
    first.insert(String::from("b"), serde_json::Value::from("x,y"));
    let mut second = serde_json::Map::new();
    second.insert(String::from("a"), serde_json::Value::from(2));
    second.insert(String::from("b"), serde_json::Value::Null);
    serde_json::Value::Array(vec![serde_json::Value::Object(first), serde_json::Value::Object(second)])
}

#[test]
fn msgpack_response_round_trips() {
    let mut res = Response::new(StatusCode::ok());
    res.set_msgpack_response(rows().to_string());
    assert_eq!(res.content_type(), "application/msgpack");
    let decoded: serde_json::Value = rmp_serde::from_slice(&res.read_bytes().unwrap()).unwrap();
    assert_eq!(decoded, rows());
}

#[test]
fn jsonlines_response_round_trips() {
    let mut res = Response::new(StatusCode::ok());
    res.set_jsonlines_response(rows().to_string());
    let text = body_text(&res);
    let lines: Vec<serde_json::Value> =
        text.lines().map(|l| serde_json::from_str(l).unwrap()).collect();
    assert_eq!(serde_json::Value::Array(lines), rows());
    assert!(text.ends_with('\n'));
}

#[test]
fn csv_response_round_trips() {
    let mut res = Response::new(StatusCode::ok());
    res.set_csv_response(rows().to_string());
    assert_eq!(res.content_type(), "text/csv; charset=utf-8");
    let bytes = res.read_bytes().unwrap();
    let mut reader = csv::ReaderBuilder::new().has_headers(false).from_reader(bytes.as_slice());
    let records: Vec<Vec<String>> = reader
        .records()
        .map(|r| r.unwrap().iter().map(|c| c.to_string()).collect())
        .collect();
    assert_eq!(
        records,
        vec![vec!["a", "b"], vec!["1", "x,y"], vec!["2", ""]]
            .into_iter()
            .map(|r| r.into_iter().map(String::from).collect::<Vec<String>>())
            .collect::<Vec<_>>()
    );
}

#[test]
fn form_response_encodes_fields() {
    let mut value = serde_json::Map::new();
    value.insert(String::from("a"), serde_json::Value::from(1));
    value.insert(String::from("b"), serde_json::Value::from("x y"));
    let mut res = Response::new(StatusCode::ok());
    res.set_form_response(serde_json::Value::Object(value).to_string());
    assert_eq!(res.content_type(), "application/x-www-form-urlencoded");
    assert_eq!(body_text(&res), "a=1&b=x+y");
}

#[test]
fn plain_text_shows_strings_unquoted() {
    let mut res = Response::new(StatusCode::ok());
    res.set_content_type(String::from("text/plain; charset=utf-8"));
    res.set_json_data(serde_json::Value::from("hi \"there\"").to_string());
    assert_eq!(res.encoding(), Encoding::PlainText);
    assert_eq!(body_text(&res), "hi \"there\"");
    res.set_json_data(serde_json::Value::from(42).to_string());
    assert_eq!(body_text(&res), "42");
}

#[test]
fn empty_payload_gives_empty_body() {
    let mut res = Response::new(StatusCode::ok());
    res.set_content_type(String::from("text/plain"));
    res.set_json_data(serde_json::Value::Null.to_string());
    assert_eq!(res.encoding(), Encoding::Empty);
    assert_eq!(res.read_bytes().unwrap(), Vec::<u8>::new());
}

#[test]
fn content_type_selects_codec_without_transformer() {
    let mut res = Response::new(StatusCode::ok());
    res.set_data(Ok(String::from(r#"{"k":"v"}"#)));
    res.set_content_type(String::from("application/jsonlines"));
    assert_eq!(res.encoding(), Encoding::JsonLines);
    assert_eq!(body_text(&res), "{\"k\":\"v\"}\n");
    res.set_content_type(String::from("application/vnd.api+json"));
    assert_eq!(res.encoding(), Encoding::Envelope);
}

#[test]
fn jsonlines_scalar_is_one_line_and_csv_refuses_scalar_rows() {
    let mut res = Response::new(StatusCode::ok());
    res.set_jsonlines_response(serde_json::Value::from(5).to_string());
    assert_eq!(body_text(&res), "5\n");
    let mut csv = Response::new(StatusCode::ok());
    csv.set_csv_response(serde_json::Value::from(vec![1, 2]).to_string());
    assert!(csv.read_bytes().is_err());
}

#[test]
fn headers_keep_order_and_first_match_wins() {
    let mut res = Response::new(StatusCode::ok());
    res.insert_header("x-a", String::from("1"));
    res.insert_header("x-b", String::from("2"));
    res.insert_header("x-a", String::from("3"));
    assert_eq!(res.get_header("x-a"), Some("1"));
    assert_eq!(res.get_header("x-c"), None);
    assert_eq!(res.headers().len(), 3);
}

#[test]
fn finalize_adds_request_trace_and_timing_headers() {
    let mut res = Response::new(StatusCode::ok());
    res.set_request_id(0x0123_4567_89ab_cdef_0123_4567_89ab_cdef);
    let mut trace = TraceContext::from_ids(0xabc, 0x1f);
    trace.push_state(String::from("vendor"), String::from("v1"));
    res.set_trace_context(Some(trace));
    res.record_server_timing(String::from("db"), Some(String::from("query")), Some(1500));
    let mut metrics = sink();
    let headers = res.finalize(&mut metrics);
    assert_eq!(metrics.records().len(), 1);
    assert_eq!(metrics.records()[0].0, 200);
    assert_eq!(headers[0], ("x-request-id", String::from("01234567-89ab-cdef-0123-456789abcdef")));
    assert_eq!(
        headers[1],
        ("traceparent", String::from("00-00000000000000000000000000000abc-000000000000001f-01"))
    );
    assert_eq!(headers[2], ("tracestate", String::from("vendor=v1")));
    assert_eq!(headers[3].0, "server-timing");
    assert!(headers[3].1.starts_with("db;dur=1.500;desc=\"query\", total;dur="));
    assert_eq!(headers.len(), 4);
}

#[test]
fn finalize_without_context_synthesizes_trace() {
    let res = Response::new(StatusCode::ok());
    let mut metrics = sink();
    let headers = res.finalize(&mut metrics);
    assert_eq!(headers.len(), 3);
    assert_eq!(headers[0].0, "traceparent");
    let parts: Vec<&str> = headers[0].1.split('-').collect();
    assert_eq!(parts.len(), 4);
    assert_eq!(parts[0], "00");
    assert_eq!(parts[1].len(), 32);
    assert_eq!(parts[2].len(), 16);
    assert_eq!(parts[3], "01");
    let span = u64::from_str_radix(parts[2], 16).unwrap();
    assert_eq!(headers[1], ("tracestate", format!("zino={span:x}")));
    assert_eq!(headers[2].0, "server-timing");
    assert!(headers[2].1.starts_with("total;dur="));
}

#[test]
fn concurrent_style_finalizations_count_exactly() {
    let mut metrics = sink();
    let first = Response::new(StatusCode::ok());
    let second = Response::new(StatusCode::internal_server_error());
    first.finalize(&mut metrics);
    second.finalize(&mut metrics);
    assert_eq!(metrics.records().len(), 2);
    assert_eq!(metrics.records()[0].0, 200);
    assert_eq!(metrics.records()[1].0, 500);
}

#[test]
fn envelope_carries_request_id_and_instance() {
    let mut res = Response::new(StatusCode::bad_request());
    res.set_request_id(1);
    res.set_instance(String::from("/items/1"));
    assert_eq!(
        body_text(&res),
        r#"{"title":"Bad Request","status":400,"detail":"Bad Request","instance":"/items/1","success":false,"request_id":"00000000-0000-0000-0000-000000000001"}"#
    );
}

fn fixed_context() -> RequestInfo {
    RequestInfo {
        start_time: std::time::Instant::now(),
        request_id: 42,
        instance: String::from("/orders/7"),
        trace_id: 5,
        parent_id: 6,
    }
}

#[test]
fn with_context_takes_request_data() {
    let ok = Response::with_context(StatusCode::ok(), &fixed_context());
    assert!(ok.has_context());
    assert_eq!(ok.request_id(), 42);
    assert_eq!(ok.trace_id(), 5);
    let (traceparent, tracestate) = ok.trace_context();
    assert!(traceparent.starts_with("00-00000000000000000000000000000005-"));
    assert!(traceparent.ends_with("-01"));
    assert_eq!(tracestate, "");
    let failed = Response::new(StatusCode::bad_request()).context(&fixed_context());
    let body: serde_json::Value = serde_json::from_slice(&failed.read_bytes().unwrap()).unwrap();
    assert_eq!(body["instance"], serde_json::Value::from("/orders/7"));
    assert_eq!(body["request_id"], serde_json::Value::from("00000000-0000-0000-0000-00000000002a"));
}

#[test]
fn validation_keeps_one_message_per_field() {
    let mut validation = Validation::new();
    validation.record_fail(String::from("a"), String::from("first"));
    validation.record_fail(String::from("b"), String::from("other"));
    validation.record_fail(String::from("a"), String::from("second"));
    assert!(!validation.is_success());
    assert_eq!(validation.into_map_text(), r#"{"a":"second","b":"other"}"#);
}

#[test]
fn response_time_reports_once_to_the_sink() {
    let mut res = Response::new(StatusCode::bad_request());
    res.set_start_time(std::time::Instant::now());
    let mut sink = RecordingSink::new();
    let d = res.response_time(&mut sink);
    assert_eq!(sink.records(), &[(400, d)]);
    let headers = res.finalize(&mut sink);
    assert_eq!(sink.records().len(), 2);
    assert_eq!(sink.records()[1].0, 400);
    assert!(headers.last().unwrap().1.starts_with("total;dur="));
}

#[test]
fn http_parts_downgrades_encoding_errors() {
    assert_eq!(
        http_parts(201, "text/csv", Ok(vec![1, 2])),
        (201, String::from("text/csv"), vec![1, 2])
    );
    assert_eq!(
        http_parts(200, "text/csv", Err(Error::new(String::from("bad")))),
        (500, String::from("text/plain; charset=utf-8"), b"bad".to_vec())
    );
}
