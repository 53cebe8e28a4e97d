use std::time::Duration;

use http::header::{HeaderMap, CONTENT_TYPE};
use provider_models::transport::error_body::{
    read_limited_error_body, ErrorBodyProgress, LimitedErrorBody,
};
use provider_models::transport::{
    http_error, request_body_for_trace, request_trace, success, HttpClient, PreparedBody, Request,
    RequestBody, ReqwestTransport, StreamStep, TransportError,
};
use serde_json::Value;

fn request(method: &str, body: Option<RequestBody>) -> Request {
    Request {
        method: method.to_string(),
        url: "https://example.com/v1/models".to_string(),
        headers: HeaderMap::new(),
        body,
        timeout: Some(Duration::from_secs(3)),
    }
}

fn json_headers() -> HeaderMap {
    let mut headers = HeaderMap::new();
    headers.insert(CONTENT_TYPE, "application/json".parse().expect("a header value"));
    headers
}

fn json(text: &str) -> Value {
    serde_json::from_str(text).expect("JSON")
}

fn chunks(parts: &[&[u8]]) -> Vec<Result<Vec<u8>, TransportError>> {
    parts.iter().map(|part| Ok(part.to_vec())).collect()
}

fn sent_method(method: &str) -> String {
    let prepared = PreparedBody { headers: HeaderMap::new(), body: None };
    ReqwestTransport::build(request(method, None), Ok(prepared)).expect("built").method
}

#[test]
fn what_was_prepared_goes_out() {
    let prepared = PreparedBody { headers: json_headers(), body: Some(b"{}".to_vec()) };
    let out = ReqwestTransport::build(request("POST", None), Ok(prepared)).expect("built");
    assert_eq!(out.method, "POST");
    assert_eq!(out.url, "https://example.com/v1/models");
    assert_eq!(out.timeout, Some(Duration::from_secs(3)));
    assert_eq!(out.headers, json_headers());
    assert_eq!(out.body, Some(b"{}".to_vec()));
}

#[test]
fn what_cannot_be_prepared_is_not_sent() {
    let result = ReqwestTransport::build(request("POST", None), Err("too deep".to_string()));
    assert!(matches!(result, Err(TransportError::Build(reason)) if reason == "too deep"));
}

#[test]
fn texts_that_name_no_method_become_get() {
    assert_eq!(sent_method("DELETE"), "DELETE");
    assert_eq!(sent_method("get"), "get");
    assert_eq!(sent_method("X-a.very_long|method~name!"), "X-a.very_long|method~name!");
    assert_eq!(sent_method(""), "GET");
    assert_eq!(sent_method("PO ST"), "GET");
    assert_eq!(sent_method("PUT\n"), "GET");
    assert_eq!(sent_method("PÜT"), "GET");
    for byte in 0..128u8 {
        let name = format!("M{}", byte as char);
        let known = http::Method::from_bytes(name.as_bytes()).is_ok();
        assert_eq!(sent_method(&name), if known { name } else { "GET".to_string() });
    }
}

#[test]
fn timeouts_are_told_from_other_failures() {
    assert!(matches!(
        ReqwestTransport::map_error(true, "late".to_string()),
        TransportError::Timeout
    ));
    assert!(matches!(
        ReqwestTransport::map_error(false, "reset".to_string()),
        TransportError::Network(reason) if reason == "reset"
    ));
}

#[test]
fn bodies_are_traced_by_kind() {
    let shown = |body| request_body_for_trace(&request("POST", body));
    assert_eq!(shown(None), "");
    assert_eq!(
        shown(Some(RequestBody::Json(json(r#"{ "b": [1, "x"],  "a": null }"#)))),
        json(r#"{ "b": [1, "x"],  "a": null }"#).to_string()
    );
    assert_eq!(shown(Some(RequestBody::Json(json("[ 1 , 2 ]")))), "[1,2]");
    assert_eq!(shown(Some(RequestBody::EncodedJson(b"{\"a\":1}".to_vec()))), "{\"a\":1}");
    assert_eq!(shown(Some(RequestBody::EncodedJson(b"a\xff".to_vec()))), "a\u{fffd}");
    assert_eq!(shown(Some(RequestBody::Raw(vec![1; 1234]))), "<raw body: 1234 bytes>");
    assert_eq!(shown(Some(RequestBody::Raw(vec![2; 1234]))), "<raw body: 1234 bytes>");
}

#[test]
fn requests_are_traced_where_someone_listens() {
    let transport = ReqwestTransport::new(reqwest::Client::new());
    let req = request("POST", Some(RequestBody::Raw(vec![0; 10])));
    let line = "POST to https://example.com/v1/models: <raw body: 10 bytes>";
    assert_eq!(transport.trace_request(&req, true), Some(line.to_string()));
    assert_eq!(transport.trace_request(&req, false), None);
    assert_eq!(request_trace(&req, "x"), "POST to https://example.com/v1/models: x");

    let quiet = HttpClient { client: reqwest::Client::new(), request_logging: false };
    let transport = ReqwestTransport::from_http_client(quiet);
    assert_eq!(transport.trace_request(&req, true), None);
}

#[test]
fn only_success_is_a_response() {
    let outcome = |status: u16, body: &[u8]| {
        ReqwestTransport::execute_outcome(
            "https://example.com".to_string(),
            status,
            json_headers(),
            body.to_vec(),
        )
    };
    let response = outcome(204, b"\xff").expect("success");
    assert_eq!(response.status, 204);
    assert_eq!(response.headers, json_headers());
    assert_eq!(response.body, b"\xff");

    match outcome(404, b"not here") {
        Err(TransportError::Http { status, url, headers, body }) => {
            assert_eq!(status, 404);
            assert_eq!(url, Some("https://example.com".to_string()));
            assert_eq!(headers, Some(json_headers()));
            assert_eq!(body, Some("not here".to_string()));
        }
        other => panic!("unexpected outcome: {other:?}"),
    }
    assert!(matches!(
        outcome(500, b"\xff"),
        Err(TransportError::Http { status: 500, body: None, .. })
    ));
    assert!(matches!(
        http_error(300, String::new(), HeaderMap::new(), None),
        TransportError::Http { status: 300, body: None, .. }
    ));
}

#[test]
fn success_is_a_status_in_the_two_hundreds() {
    for status in 100..1000u16 {
        let known = http::StatusCode::from_u16(status).expect("a status").is_success();
        assert_eq!(success(status), known);
    }
}

#[test]
fn error_bodies_are_bounded_on_request() {
    let transport = ReqwestTransport::new(reqwest::Client::new());
    assert_eq!(transport.stream_step(200), StreamStep::Deliver);
    assert_eq!(transport.stream_step(503), StreamStep::ReadAll);
    let transport = transport.with_max_stream_error_body_bytes(8);
    assert_eq!(transport.stream_step(299), StreamStep::Deliver);
    assert_eq!(transport.stream_step(503), StreamStep::ReadLimited(8));
    let transport = transport.with_max_stream_error_body_bytes(0);
    assert_eq!(transport.stream_step(199), StreamStep::ReadLimited(0));
    let http_client = HttpClient::new(transport.client().clone());
    assert!(http_client.request_logging);
    assert_eq!(
        ReqwestTransport::from_http_client(http_client).stream_step(404),
        StreamStep::ReadAll
    );
}

#[test]
fn error_bodies_are_cut_at_the_bound() {
    let body = |parts: &[&[u8]], max| read_limited_error_body(chunks(parts), max);
    assert_eq!(body(&[b"abc", b"def"], 6), Some("abcdef".to_string()));
    assert_eq!(body(&[b"abc", b"def"], 4), Some("abcd".to_string()));
    assert_eq!(body(&[b"abc", b"def"], 3), Some("abc".to_string()));
    assert_eq!(body(&[b"abc", b"def"], 100), Some("abcdef".to_string()));
    assert_eq!(body(&[b"abc"], 0), Some(String::new()));
    assert_eq!(body(&[], 10), Some(String::new()));
    let long = vec![b'x'; 20_000];
    assert_eq!(body(&[&long], 10_000).map(|text| text.len()), Some(10_000));
}

#[test]
fn error_bodies_that_are_no_text_are_left_out() {
    let body = |parts: &[&[u8]], max| read_limited_error_body(chunks(parts), max);
    assert_eq!(body(&[b"\xc3", b"\xa9"], 10), Some("é".to_string()));
    assert_eq!(body(&[b"\xc3", b"\xa9"], 1), None);
    assert_eq!(body(&[b"a\xff"], 1), Some("a".to_string()));
    assert_eq!(body(&[b"a\xff"], 2), None);
}

#[test]
fn a_lost_chunk_leaves_no_error_body_unless_the_bound_was_reached() {
    let lost = |max| {
        let mut parts = chunks(&[b"abc"]);
        parts.push(Err(TransportError::Timeout));
        read_limited_error_body(parts, max)
    };
    assert_eq!(lost(4), None);
    assert_eq!(lost(3), Some("abc".to_string()));
    assert_eq!(lost(2), Some("ab".to_string()));
}

#[test]
fn reading_stops_by_itself() {
    let mut progress = LimitedErrorBody::start(5);
    let mut wanted = 0;
    while let ErrorBodyProgress::More(reading) = progress {
        wanted += 1;
        progress = reading.step(Some(Ok(b"ab".to_vec())));
    }
    assert_eq!(wanted, 3);
    assert!(matches!(progress, ErrorBodyProgress::Done(Some(text)) if text == "ababa"));
    assert!(matches!(
        LimitedErrorBody::start(0),
        ErrorBodyProgress::Done(Some(text)) if text.is_empty()
    ));
    match LimitedErrorBody::start(5) {
        ErrorBodyProgress::More(reading) => {
            assert!(matches!(
                reading.step(Some(Err(TransportError::Timeout))),
                ErrorBodyProgress::Done(None)
            ));
        }
        ErrorBodyProgress::Done(_) => panic!("there is room"),
    }
}
