use lambda_web_adapter::{
    Adapter, AdapterError, AdapterOptions, EventBody, Header, InboundEvent, LambdaInvokeMode,
    Protocol,
};

fn h(name: &str, value: &str) -> Header {
    Header { name: name.to_string(), value: value.to_string() }
}

fn base_event() -> InboundEvent {
    InboundEvent {
        method: "GET".to_string(),
        raw_path: "/hello".to_string(),
        query: None,
        headers: vec![h("accept", "*/*")],
        body: EventBody::Empty,
        request_context_json: "{\"rc\":1}".to_string(),
        lambda_context_json: "{\"lc\":2}".to_string(),
        pass_through: false,
        tenant_id: None,
    }
}

fn default_adapter() -> Adapter {
    Adapter::new(&AdapterOptions::default(), 0).unwrap()
}

#[test]
fn test_adapter_construction_defaults() {
    let adapter = default_adapter();
    assert_eq!(adapter.host, "127.0.0.1");
    assert_eq!(adapter.port, 8080);
    assert_eq!(adapter.healthcheck_port, 8080);
    assert_eq!(adapter.healthcheck_url, "http://127.0.0.1:8080/");
    assert_eq!(adapter.domain, "http://127.0.0.1:8080");
    assert_eq!(adapter.healthcheck_protocol, Protocol::Http);
    assert_eq!(adapter.healthcheck_min_unhealthy_status, 500);
    assert_eq!(adapter.invoke_mode, LambdaInvokeMode::Buffered);
    assert!(!adapter.ready_at_init);
    assert_eq!(adapter.pool.generation, 0);
    assert_eq!(adapter.pool.idle_timeout_ms, 4000);
}

#[test]
fn test_adapter_construction_rejects_bad_host() {
    let options = AdapterOptions { host: "not a host".to_string(), ..AdapterOptions::default() };
    let err = Adapter::new(&options, 0).unwrap_err();
    assert_eq!(err, AdapterError::InvalidHost);
    assert_eq!(err.message(), "invalid host");
}

#[test]
fn test_adapter_construction_rejects_bad_port() {
    let options = AdapterOptions { port: "eighty".to_string(), ..AdapterOptions::default() };
    assert_eq!(Adapter::new(&options, 0).unwrap_err(), AdapterError::InvalidPort);
    let options = AdapterOptions { port: "70000".to_string(), ..AdapterOptions::default() };
    assert_eq!(Adapter::new(&options, 0).unwrap_err(), AdapterError::InvalidPort);
    let options = AdapterOptions {
        readiness_check_port: "".to_string(),
        ..AdapterOptions::default()
    };
    assert_eq!(Adapter::new(&options, 0).unwrap_err(), AdapterError::InvalidReadinessPort);
}

#[test]
fn test_client_idle_timeout() {
    let adapter = default_adapter();
    let now: u64 = 100_000;
    let mut pool = adapter.pool;
    pool.last_invoke_ms = now;
    assert!(!pool.timeout_has_expired(now));
    // the last invocation lies 5000 ms back, past the 4000 ms default
    assert!(pool.timeout_has_expired(now + 5000));
    // the last invocation lies in the future: reuse the client
    pool.last_invoke_ms = now + 5000;
    assert!(!pool.timeout_has_expired(now));
}

#[test]
fn test_pool_freshness_across_invocations() {
    let mut adapter = default_adapter();
    assert!(!adapter.on_invoke(1000));
    let first_generation = adapter.pool.generation;
    // a gap under the threshold keeps the same client instance
    assert!(!adapter.on_invoke(4000));
    assert_eq!(adapter.pool.generation, first_generation);
    // a gap over the threshold replaces it before dispatch
    assert!(adapter.on_invoke(9001));
    assert_ne!(adapter.pool.generation, first_generation);
}

#[test]
fn test_translate_basic_get() {
    let adapter = default_adapter();
    let t = adapter.translate_request(base_event()).unwrap();
    assert_eq!(t.request.method, "GET");
    assert_eq!(t.request.uri, "http://127.0.0.1:8080/hello");
    assert_eq!(t.request.body, Vec::<u8>::new());
    assert!(!t.auth_source_missing);
    assert!(!t.tenant_id_skipped);
    // the client header stays, and both context headers are appended
    assert_eq!(t.request.headers[0], h("accept", "*/*"));
    assert_eq!(t.request.headers[1], h("x-amzn-request-context", "{\"rc\":1}"));
    assert_eq!(t.request.headers[2], h("x-amzn-lambda-context", "{\"lc\":2}"));
    assert_eq!(t.request.headers.len(), 3);
}

#[test]
fn test_translate_is_idempotent() {
    let adapter = default_adapter();
    let t1 = adapter.translate_request(base_event()).unwrap();
    let t2 = adapter.translate_request(base_event()).unwrap();
    assert_eq!(t1, t2);
}

#[test]
fn test_translate_strips_base_path() {
    let options = AdapterOptions {
        base_path: Some("/prod".to_string()),
        ..AdapterOptions::default()
    };
    let adapter = Adapter::new(&options, 0).unwrap();
    let event = InboundEvent { raw_path: "/prod/api/data".to_string(), ..base_event() };
    let t = adapter.translate_request(event).unwrap();
    assert_eq!(t.request.method, "GET");
    assert_eq!(t.request.uri, "http://127.0.0.1:8080/api/data");
    // a path that does not start with the base path goes through unchanged
    let event = InboundEvent { raw_path: "/other/api".to_string(), ..base_event() };
    let t = adapter.translate_request(event).unwrap();
    assert_eq!(t.request.uri, "http://127.0.0.1:8080/other/api");
    // the match is a byte-prefix one, not segment-aware, and the resolved
    // path is combined verbatim
    let event = InboundEvent { raw_path: "/production".to_string(), ..base_event() };
    let t = adapter.translate_request(event).unwrap();
    assert_eq!(t.request.uri, "http://127.0.0.1:8080uction");
}

#[test]
fn test_translate_keeps_query_verbatim() {
    let adapter = default_adapter();
    let event = InboundEvent {
        raw_path: "/get".to_string(),
        query: Some("foo=bar&fizz=buzz".to_string()),
        ..base_event()
    };
    let t = adapter.translate_request(event).unwrap();
    assert_eq!(t.request.uri, "http://127.0.0.1:8080/get?foo=bar&fizz=buzz");
}

#[test]
fn test_translate_keeps_encoded_path_verbatim() {
    let adapter = default_adapter();
    let event = InboundEvent { raw_path: "/A%C3%B1o_1234".to_string(), ..base_event() };
    let t = adapter.translate_request(event).unwrap();
    assert_eq!(t.request.uri, "http://127.0.0.1:8080/A%C3%B1o_1234");
}

#[test]
fn test_translate_pass_through_post() {
    let adapter = default_adapter();
    let event = InboundEvent {
        method: "POST".to_string(),
        pass_through: true,
        ..base_event()
    };
    let t = adapter.translate_request(event).unwrap();
    assert_eq!(t.request.uri, "http://127.0.0.1:8080/events");
    // a pass-through event with another method keeps its resolved path
    let event = InboundEvent { pass_through: true, ..base_event() };
    let t = adapter.translate_request(event).unwrap();
    assert_eq!(t.request.uri, "http://127.0.0.1:8080/hello");
}

#[test]
fn test_translate_context_headers_overwrite_client_values() {
    let adapter = default_adapter();
    let event = InboundEvent {
        headers: vec![
            h("x-amzn-request-context", "spoofed"),
            h("foo", "bar"),
            h("x-amzn-lambda-context", "spoofed-too"),
        ],
        ..base_event()
    };
    let t = adapter.translate_request(event).unwrap();
    assert_eq!(
        t.request.headers,
        vec![
            h("foo", "bar"),
            h("x-amzn-request-context", "{\"rc\":1}"),
            h("x-amzn-lambda-context", "{\"lc\":2}"),
        ]
    );
}

#[test]
fn test_translate_forward_context_disabled() {
    let options = AdapterOptions { forward_context: false, ..AdapterOptions::default() };
    let adapter = Adapter::new(&options, 0).unwrap();
    let t = adapter.translate_request(base_event()).unwrap();
    assert_eq!(t.request.headers, vec![h("accept", "*/*")]);
}

#[test]
fn test_translate_invalid_context_is_an_error() {
    let adapter = default_adapter();
    let event = InboundEvent {
        request_context_json: "bad\ncontext".to_string(),
        ..base_event()
    };
    let err = adapter.translate_request(event).unwrap_err();
    assert_eq!(err, AdapterError::InvalidContextHeader);
}

#[test]
fn test_translate_tenant_id() {
    let adapter = default_adapter();
    let event = InboundEvent { tenant_id: Some("acme".to_string()), ..base_event() };
    let t = adapter.translate_request(event).unwrap();
    assert!(!t.tenant_id_skipped);
    assert!(t.request.headers.contains(&h("x-amz-tenant-id", "acme")));
    // an identifier that cannot stand in a header is skipped with a warning
    let event = InboundEvent { tenant_id: Some("ac\nme".to_string()), ..base_event() };
    let t = adapter.translate_request(event).unwrap();
    assert!(t.tenant_id_skipped);
    assert!(!t.request.headers.iter().any(|x| x.name == "x-amz-tenant-id"));
}

#[test]
fn test_translate_authorization_source_present() {
    let options = AdapterOptions {
        authorization_source: Some("x-custom-auth".to_string()),
        ..AdapterOptions::default()
    };
    let adapter = Adapter::new(&options, 0).unwrap();
    let event = InboundEvent {
        headers: vec![h("x-custom-auth", "Bearer abc"), h("accept", "*/*")],
        ..base_event()
    };
    let t = adapter.translate_request(event).unwrap();
    assert!(!t.auth_source_missing);
    assert!(t.request.headers.contains(&h("authorization", "Bearer abc")));
    assert!(!t.request.headers.iter().any(|x| x.name == "x-custom-auth"));
}

#[test]
fn test_translate_authorization_source_absent() {
    let options = AdapterOptions {
        authorization_source: Some("x-custom-auth".to_string()),
        ..AdapterOptions::default()
    };
    let adapter = Adapter::new(&options, 0).unwrap();
    let t = adapter.translate_request(base_event()).unwrap();
    assert!(t.auth_source_missing);
    assert!(!t.request.headers.iter().any(|x| x.name == "authorization"));
    assert!(!t.request.headers.iter().any(|x| x.name == "x-custom-auth"));
}

#[test]
fn test_translate_binary_body_passes_through() {
    let adapter = default_adapter();
    let payload: Vec<u8> = vec![0, 159, 146, 150, 255, 1, 2, 3];
    let event = InboundEvent {
        method: "POST".to_string(),
        body: EventBody::Binary(payload.clone()),
        ..base_event()
    };
    let t = adapter.translate_request(event).unwrap();
    assert_eq!(t.request.body, payload);
}

#[test]
fn test_translate_text_body_is_utf8() {
    let adapter = default_adapter();
    let event = InboundEvent {
        method: "POST".to_string(),
        body: EventBody::Text("héllo".to_string()),
        ..base_event()
    };
    let t = adapter.translate_request(event).unwrap();
    assert_eq!(t.request.body, "héllo".as_bytes().to_vec());
}

#[test]
fn test_error_status_codes_policy() {
    let options = AdapterOptions {
        error_status_codes: Some(vec![500, 502, 503, 504]),
        ..AdapterOptions::default()
    };
    let adapter = Adapter::new(&options, 0).unwrap();
    let err = adapter.evaluate_response_status(502).unwrap_err();
    assert_eq!(err, AdapterError::ErrorStatus(502));
    assert!(err.message().contains("502"));
    assert_eq!(
        err.message(),
        "Request failed with configured error status code: 502"
    );
    // a status outside the list passes the response through
    assert!(adapter.evaluate_response_status(404).is_ok());
    // with no list configured, nothing is an error
    let adapter = default_adapter();
    assert!(adapter.evaluate_response_status(502).is_ok());
}

#[test]
fn test_scrub_response_headers() {
    let hs = vec![
        h("content-type", "text/plain"),
        h("Transfer-Encoding", "chunked"),
        h("x-custom", "1"),
    ];
    let scrubbed = lambda_web_adapter::scrub_response_headers(hs);
    assert_eq!(scrubbed, vec![h("content-type", "text/plain"), h("x-custom", "1")]);
}

#[test]
fn test_translate_authorization_source_case_insensitive() {
    let options = AdapterOptions {
        authorization_source: Some("X-Custom-Auth".to_string()),
        ..AdapterOptions::default()
    };
    let adapter = Adapter::new(&options, 0).unwrap();
    let event = InboundEvent {
        headers: vec![h("x-custom-auth", "Bearer abc")],
        ..base_event()
    };
    let t = adapter.translate_request(event).unwrap();
    assert!(!t.auth_source_missing);
    assert!(t.request.headers.contains(&h("authorization", "Bearer abc")));
    assert!(!t.request.headers.iter().any(|x| x.name.eq_ignore_ascii_case("x-custom-auth")));
}

#[test]
fn test_translate_compound_scenario() {
    let options = AdapterOptions {
        base_path: Some("/prod".to_string()),
        authorization_source: Some("auth-token".to_string()),
        ..AdapterOptions::default()
    };
    let adapter = Adapter::new(&options, 0).unwrap();
    let event = InboundEvent {
        method: "PUT".to_string(),
        raw_path: "/prod/items/7".to_string(),
        query: Some("dry_run=true".to_string()),
        headers: vec![h("auth-token", "Bearer xyz"), h("content-type", "application/json")],
        body: EventBody::Text("{\"n\":1}".to_string()),
        ..base_event()
    };
    let t = adapter.translate_request(event).unwrap();
    assert_eq!(t.request.method, "PUT");
    assert_eq!(t.request.uri, "http://127.0.0.1:8080/items/7?dry_run=true");
    assert_eq!(t.request.body, b"{\"n\":1}".to_vec());
    assert_eq!(
        t.request.headers,
        vec![
            h("content-type", "application/json"),
            h("x-amzn-request-context", "{\"rc\":1}"),
            h("x-amzn-lambda-context", "{\"lc\":2}"),
            h("authorization", "Bearer xyz"),
        ]
    );
}

#[test]
fn test_adapter_options_defaults() {
    let options = AdapterOptions::default();
    assert_eq!(options.host, "127.0.0.1");
    assert_eq!(options.port, "8080");
    assert_eq!(options.readiness_check_port, "8080");
    assert_eq!(options.readiness_check_path, "/");
    assert_eq!(options.readiness_check_protocol, Protocol::Http);
    assert_eq!(options.readiness_check_min_unhealthy_status, 500);
    assert_eq!(options.base_path, None);
    assert_eq!(options.pass_through_path, "/events");
    assert!(!options.async_init);
    assert!(!options.compression);
    assert_eq!(options.invoke_mode, LambdaInvokeMode::Buffered);
    assert_eq!(options.authorization_source, None);
    assert_eq!(options.error_status_codes, None);
    assert_eq!(options.client_idle_timeout_ms, 4000);
    assert!(options.forward_context);
}
