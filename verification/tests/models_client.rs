use http::header::{HeaderValue, ETAG};
use http::HeaderMap;
use provider_models::headers::{etag, header_text};
use provider_models::models::{
    ConfigShellToolType, InputModality, ModelInfo, ModelVisibility, ReasoningEffort,
    ReasoningEffortPreset, ReasoningSummary, TruncationPolicyConfig, WebSearchToolType,
};
use provider_models::models_client::fetch::decode_failure;
use provider_models::models_client::{ApiError, ModelsClient};
use provider_models::transport::{Request, Response, StreamResponse, TransportError};
use serde_json::Value;

type Endpoint = ModelsClient<&'static str, &'static str, &'static str, u8>;

fn provider(base_url: &'static str) -> impl FnOnce(&str, &str) -> Request {
    move |method, path| Request {
        method: method.to_string(),
        url: format!("{base_url}/{path}"),
        headers: HeaderMap::new(),
        body: None,
        timeout: None,
    }
}

fn headers(tag: Option<&str>) -> HeaderMap {
    let mut headers = HeaderMap::new();
    if let Some(tag) = tag {
        headers.insert(ETAG, tag.parse().expect("a header value"));
    }
    headers
}

fn response(body: &[u8], tag: Option<&str>) -> Response {
    Response { status: 200, headers: headers(tag), body: body.to_vec() }
}

fn stream(
    chunks: Vec<Result<Vec<u8>, TransportError>>,
    tag: Option<&str>,
) -> StreamResponse<Vec<Result<Vec<u8>, TransportError>>> {
    StreamResponse { status: 200, headers: headers(tag), bytes: chunks }
}

fn model(value: &Value) -> Result<ModelInfo, String> {
    let text = |name: &str| {
        value
            .get(name)
            .and_then(Value::as_str)
            .map(str::to_string)
            .ok_or(format!("missing field `{name}`"))
    };
    let levels = value.get("supported_reasoning_levels").and_then(Value::as_array);
    Ok(ModelInfo {
        slug: text("slug")?,
        display_name: text("display_name")?,
        description: text("description").ok(),
        default_reasoning_level: text("default_reasoning_level")
            .ok()
            .map(|id| ReasoningEffort::from_id(&id)),
        supported_reasoning_levels: levels
            .ok_or("missing field `supported_reasoning_levels`")?
            .iter()
            .map(|level| ReasoningEffortPreset {
                effort: ReasoningEffort::from_id(level["effort"].as_str().unwrap_or("")),
                description: level["description"].as_str().unwrap_or("").to_string(),
            })
            .collect(),
        shell_type: ConfigShellToolType::ShellCommand,
        visibility: ModelVisibility::List,
        supported_in_api: value["supported_in_api"].as_bool().ok_or("supported_in_api")?,
        priority: value["priority"].as_i64().ok_or("priority")? as i32,
        additional_speed_tiers: Vec::new(),
        service_tiers: Vec::new(),
        default_service_tier: None,
        availability_nux: None,
        upgrade: None,
        base_instructions: text("base_instructions")?,
        model_messages: None,
        include_skills_usage_instructions: false,
        supports_reasoning_summary_parameter: false,
        default_reasoning_summary: ReasoningSummary::Auto,
        support_verbosity: false,
        default_verbosity: None,
        apply_patch_tool_type: None,
        web_search_tool_type: WebSearchToolType::Text,
        truncation_policy: TruncationPolicyConfig::bytes(10_000),
        supports_parallel_tool_calls: false,
        supports_image_detail_original: false,
        context_window: value["context_window"].as_i64(),
        max_context_window: None,
        auto_compact_token_limit: None,
        comp_hash: None,
        effective_context_window_percent: 95,
        experimental_supported_tools: Vec::new(),
        input_modalities: vec![InputModality::Text],
        used_fallback_model_metadata: false,
        supports_search_tool: false,
        use_responses_lite: false,
        auto_review_model_override: None,
        tool_mode: None,
        multi_agent_version: None,
    })
}

fn decode(body: &[u8]) -> Result<Vec<ModelInfo>, String> {
    let value: Value = serde_json::from_slice(body).map_err(|err| err.to_string())?;
    value
        .get("models")
        .and_then(Value::as_array)
        .ok_or("missing field `models`")?
        .iter()
        .map(model)
        .collect()
}

fn client() -> Endpoint {
    ModelsClient::new("transport", "provider", "auth")
}

#[test]
fn appends_client_version_query() {
    let request_url = Endpoint::request_url(provider("https://example.com/api/codex"), "0.99.0");
    let fetch = client().list_models(request_url, HeaderMap::new());

    let mut sent = provider("https://elsewhere.example")("GET", &fetch.request.path);
    fetch.request.configure(&mut sent);
    let (models, _) = fetch
        .finish(Ok(response(br#"{"models": []}"#, None)), decode)
        .expect("request should succeed");

    assert_eq!(models.len(), 0);
    assert_eq!(sent.url, "https://example.com/api/codex/models?client_version=0.99.0");
}

#[test]
fn parses_models_response() {
    let body = br#"{"models": [{
        "slug": "gpt-test",
        "display_name": "gpt-test",
        "description": "desc",
        "default_reasoning_level": "medium",
        "supported_reasoning_levels": [{"effort": "low", "description": "low"}, {"effort": "medium", "description": "medium"}, {"effort": "high", "description": "high"}],
        "shell_type": "shell_command",
        "visibility": "list",
        "minimal_client_version": [0, 99, 0],
        "supported_in_api": true,
        "priority": 1,
        "upgrade": null,
        "base_instructions": "base instructions",
        "support_verbosity": false,
        "default_verbosity": null,
        "apply_patch_tool_type": null,
        "truncation_policy": {"mode": "bytes", "limit": 10000},
        "supports_parallel_tool_calls": false,
        "supports_image_detail_original": false,
        "context_window": 272000,
        "experimental_supported_tools": []
    }]}"#;

    let request_url = Endpoint::request_url(provider("https://example.com/api/codex"), "0.99.0");
    let (models, _) = client().list_models(request_url, HeaderMap::new())
        .finish(Ok(response(body, None)), decode)
        .expect("request should succeed");

    assert_eq!(models.len(), 1);
    assert_eq!(models[0].slug, "gpt-test");
    assert_eq!(models[0].supported_in_api, true);
    assert_eq!(models[0].priority, 1);
}

#[test]
fn list_models_includes_etag() {
    let request_url = Endpoint::request_url(provider("https://example.com/api/codex"), "0.1.0");
    let (models, etag) = client().list_models(request_url, HeaderMap::new())
        .finish(Ok(response(br#"{"models": []}"#, Some("\"abc\""))), decode)
        .expect("request should succeed");

    assert_eq!(models.len(), 0);
    assert_eq!(etag, Some("\"abc\"".to_string()));
}

#[test]
fn bounded_metadata_fetch_streams_and_rejects_oversized_bodies() {
    let request_url = Endpoint::request_url_for_path(
        provider("https://example.com/api/codex"),
        "codex/provider-manifest",
        "0.1.0",
    );
    let exact_limit_body = br#"{"schema_version":1}"#.to_vec();
    let fetch = client().fetch_model_metadata_limited(
        "codex/provider-manifest",
        request_url.clone(),
        HeaderMap::new(),
        exact_limit_body.len(),
    );

    let (body, etag) = fetch
        .collect(Ok(stream(vec![Ok(exact_limit_body.clone())], Some("\"manifest\""))))
        .expect("body at the limit should succeed");

    assert_eq!(body, exact_limit_body);
    assert_eq!(etag, Some("\"manifest\"".to_string()));

    let fetch = client().fetch_model_metadata_limited(
        "codex/provider-manifest",
        request_url,
        HeaderMap::new(),
        4,
    );
    let error = fetch
        .collect(Ok(stream(vec![Ok(b"1234".to_vec()), Ok(b"5".to_vec())], None)))
        .expect_err("body above the limit should fail");

    match error {
        ApiError::Stream(message) => {
            assert!(message.contains("exceeds maximum size"), "unexpected error: {message}");
            assert_eq!(message, "model metadata response exceeds maximum size of 4 bytes");
        }
        other => panic!("unexpected error: {other:?}"),
    }
}

#[test]
fn a_url_with_a_query_is_extended() {
    let mut request = provider("https://example.com")("GET", "models?team=a");
    Endpoint::append_client_version_query(&mut request, "1.0");
    assert_eq!(request.url, "https://example.com/models?team=a&client_version=1.0");
    Endpoint::append_client_version_query(&mut request, "2.0");
    assert_eq!(
        request.url,
        "https://example.com/models?team=a&client_version=1.0&client_version=2.0"
    );
    assert_eq!(request.method, "GET");
}

#[test]
fn requests_read_a_path_with_the_given_headers() {
    let fetch = client().fetch_model_metadata(
        "codex/provider-manifest",
        "https://example.com/x".to_string(),
        headers(Some("\"seen\"")),
    );
    assert_eq!(fetch.request.method, "GET");
    assert_eq!(fetch.request.path, "codex/provider-manifest");
    assert_eq!(fetch.request.request_url, "https://example.com/x");
    assert_eq!(fetch.request.extra_headers.get(ETAG).expect("kept"), "\"seen\"");
    assert!(fetch.request.body.is_none());
    assert_eq!(client().list_models(String::new(), HeaderMap::new()).request.path, "models");

    let (body, tag) = fetch
        .finish(Ok(response(b"\x00\xff", Some("W/\"1\""))))
        .expect("a response is a result");
    assert_eq!(body, b"\x00\xff");
    assert_eq!(tag, Some("W/\"1\"".to_string()));
}

#[test]
fn failed_requests_fail_the_fetch() {
    let fetch = client().fetch_model_metadata("models", String::new(), HeaderMap::new());
    let lost = fetch.finish(Err(ApiError::Transport(TransportError::Timeout)));
    assert!(matches!(lost, Err(ApiError::Transport(TransportError::Timeout))));

    let fetch = client().list_models(String::new(), HeaderMap::new());
    let lost = fetch.finish(Err(ApiError::Stream("gone".to_string())), decode);
    assert!(matches!(lost, Err(ApiError::Stream(reason)) if reason == "gone"));

    let fetch =
        client().fetch_model_metadata_limited("models", String::new(), HeaderMap::new(), 10);
    let lost = fetch.collect(Err(ApiError::Transport(TransportError::Timeout)));
    assert!(matches!(lost, Err(ApiError::Transport(TransportError::Timeout))));
}

#[test]
fn bodies_that_do_not_decode_are_shown() {
    let fetch = client().list_models(String::new(), HeaderMap::new());
    let refuse = |_: &[u8]| -> Result<Vec<ModelInfo>, String> { Err("bad".to_string()) };
    let error = fetch.finish(Ok(response(b"a\xffb", None)), refuse).expect_err("bad body");
    match error {
        ApiError::Stream(message) => assert_eq!(
            message,
            "failed to decode models response: bad; body: a\u{fffd}b"
        ),
        other => panic!("unexpected error: {other:?}"),
    }
    assert_eq!(
        decode_failure("why", "what"),
        "failed to decode models response: why; body: what"
    );
}

#[test]
fn a_limited_body_is_gathered_chunk_by_chunk() {
    let fetch = client().fetch_model_metadata_limited("m", String::new(), HeaderMap::new(), 5);
    let body = fetch.begin(&headers(Some("tag")));
    let body = body.accept(Ok(b"ab".to_vec())).expect("room");
    let body = body.accept(Ok(Vec::new())).expect("room");
    let body = body.accept(Ok(b"cde".to_vec())).expect("room");
    assert_eq!(body.finish(), (b"abcde".to_vec(), Some("tag".to_string())));
}

#[test]
fn the_first_chunk_that_cannot_be_taken_decides() {
    let limited = |chunks| {
        client().fetch_model_metadata_limited("m", String::new(), HeaderMap::new(), 3)
            .collect(Ok(stream(chunks, None)))
    };
    let lost = || Err(TransportError::Network("reset".to_string()));
    assert!(matches!(
        limited(vec![Ok(b"ab".to_vec()), lost(), Ok(b"cdef".to_vec())]),
        Err(ApiError::Transport(TransportError::Network(reason))) if reason == "reset"
    ));
    assert!(matches!(
        limited(vec![Ok(b"abcd".to_vec()), lost()]),
        Err(ApiError::Stream(_))
    ));
    assert_eq!(limited(Vec::new()).expect("nothing came"), (Vec::new(), None));
}

#[test]
fn telemetry_is_all_that_changes() {
    let client = client();
    assert_eq!(client.session().transport, "transport");
    assert_eq!(client.session().provider, "provider");
    assert_eq!(client.session().auth, "auth");
    assert_eq!(client.session().request_telemetry, None);
    let client = client.with_telemetry(Some(7));
    assert_eq!(client.session().transport, "transport");
    assert_eq!(client.session().request_telemetry, Some(7));
    assert_eq!(client.with_telemetry(None).session().request_telemetry, None);
}

#[test]
fn the_first_entity_tag_with_a_text_counts() {
    let mut many = headers(Some("first"));
    many.append(ETAG, "second".parse().expect("a header value"));
    many.insert(http::header::HOST, "example.com".parse().expect("a header value"));
    assert_eq!(etag(&many), Some("first".to_string()));
    assert_eq!(etag(&HeaderMap::new()), None);

    let mut opaque = HeaderMap::new();
    opaque.insert(ETAG, HeaderValue::from_bytes(b"caf\xc3\xa9").expect("a header value"));
    assert_eq!(etag(&opaque), None);
}

#[test]
fn header_values_have_a_text_where_they_are_plain() {
    for byte in 0..=255u8 {
        let value = HeaderValue::from_bytes(&[b'a', byte]);
        let expected = value.ok().and_then(|value| value.to_str().ok().map(str::to_string));
        if expected.is_some() {
            assert_eq!(header_text(&[b'a', byte]), expected);
        }
    }
    assert_eq!(header_text(b"a\tb ~"), Some("a\tb ~".to_string()));
    assert_eq!(header_text(b""), Some(String::new()));
    assert_eq!(header_text(b"\x7f"), None);
    assert_eq!(header_text(b"\n"), None);
    assert_eq!(header_text(b"\x80"), None);
}
