//! Errors and their replies, and what the search relays.

use bx402::error::{json_error, transport_failure, TransportError};
use bx402::metrics::Metrics;
use bx402::recording::record_search;
use bx402::search::{search, search_url, upstream_request, upstream_status, Fetched};
use bx402::{AppError, Config};

#[test]
fn bad_request_maps_to_400() {
    let response = AppError::BadRequest("q is required".into()).into_response();
    assert_eq!(response.status, 400);
    assert_eq!(response.body, br#"{"error":"q is required"}"#);
}

#[test]
fn missing_config_maps_to_500() {
    let response = AppError::MissingConfig("BRAVE_SEARCH_API_KEY").into_response();
    assert_eq!(response.status, 500);
    assert_eq!(response.body, br#"{"error":"server misconfigured"}"#);
}

#[test]
fn invalid_config_maps_to_500() {
    let response = AppError::InvalidConfig("X402_FACILITATOR_URL: bad".into()).into_response();
    assert_eq!(response.status, 500);
    assert_eq!(response.body, br#"{"error":"server misconfigured"}"#);
}

#[test]
fn a_json_error_escapes_its_message() {
    let response = json_error(418, "a \"quoted\"\nline");
    assert_eq!(response.status, 418);
    assert_eq!(response.body, br#"{"error":"a \"quoted\"\nline"}"#);
    assert_eq!(
        response.headers.text("Content-Type").as_deref(),
        Some("application/json")
    );
}

#[test]
fn errors_read_clearly_in_the_logs() {
    let failed = TransportError {
        timeout: false,
        connect: true,
        decode: false,
    };
    assert_eq!(
        AppError::Upstream(failed).message(),
        "upstream Brave Search API call failed"
    );
    assert_eq!(
        AppError::BadRequest("x".into()).message(),
        "invalid request: x"
    );
}

#[test]
fn transport_failures_have_one_label_each() {
    let cases = [
        (true, true, true, "timeout"),
        (false, true, true, "connect"),
        (false, false, true, "decode"),
        (false, false, false, "transport"),
    ];
    for (timeout, connect, decode, expected) in cases {
        assert_eq!(
            transport_failure(&TransportError {
                timeout,
                connect,
                decode
            }),
            expected
        );
    }
}

#[test]
fn forwards_query_and_key_then_relays_body() {
    assert_eq!(
        search_url(
            "https://api.search.brave.com",
            "/res/v1/web/search",
            Some("q=rust%20lang&count=2")
        ),
        "https://api.search.brave.com/res/v1/web/search?q=rust%20lang&count=2"
    );
    assert_eq!(
        search_url("http://mock", "/res/v1/web/search", Some("")),
        "http://mock/res/v1/web/search"
    );
    assert_eq!(
        search_url("http://mock", "/res/v1/web/search", None),
        "http://mock/res/v1/web/search"
    );
    let sent = upstream_request(&Config::for_tests(), "/res/v1/web/search", Some("q=rust"));
    assert_eq!(sent.method, "GET");
    assert_eq!(sent.url, "http://upstream.invalid/res/v1/web/search?q=rust");
    assert_eq!(
        sent.headers.text("X-Subscription-Token").as_deref(),
        Some("secret-key")
    );
    assert_eq!(sent.headers.text("accept").as_deref(), Some("application/json"));
    assert_eq!(sent.headers.entries.len(), 2);
    let upstream_body = br#"{"web":{"results":[]}}"#;
    let reply = search(Ok(Fetched {
        status: 200,
        content_type: Some(b"application/json".to_vec()),
        body: upstream_body.to_vec(),
    }));
    assert_eq!(reply.status, 200);
    assert_eq!(
        reply.headers.text("content-type").as_deref(),
        Some("application/json")
    );
    assert_eq!(reply.body, upstream_body);
}

#[test]
fn bytes_without_a_content_type_are_relayed_as_bytes() {
    let fetched = Ok(Fetched {
        status: 503,
        content_type: None,
        body: vec![0, 159, 146, 150],
    });
    assert_eq!(upstream_status(&fetched), "503");
    let reply = search(fetched);
    assert_eq!(reply.status, 503);
    assert_eq!(reply.body, vec![0, 159, 146, 150]);
    assert_eq!(
        reply.headers.text("content-type").as_deref(),
        Some("application/octet-stream")
    );
}

#[test]
fn unreachable_upstream_becomes_502() {
    let failed: Result<Fetched, TransportError> = Err(TransportError {
        timeout: false,
        connect: true,
        decode: false,
    });
    assert_eq!(upstream_status(&failed), "connect");
    let reply = search(failed);
    assert_eq!(reply.status, 502);
    assert_eq!(reply.body, br#"{"error":"upstream error"}"#);
}

#[test]
fn an_unreachable_upstream_is_counted_as_a_transport_failure() {
    let fetched: Result<Fetched, TransportError> = Err(TransportError {
        timeout: false,
        connect: true,
        decode: false,
    });
    let mut metrics = Metrics::new();
    record_search(&mut metrics, "/res/v1/web/search", &fetched, 1_000);
    assert_eq!(search(fetched).status, 502);
    assert!(metrics.render().unwrap().contains(
        r#"bx402_upstream_requests_total{endpoint="/res/v1/web/search",status="connect"} 1"#
    ));
}
