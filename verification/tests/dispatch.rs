//! Classification, the cold `402`, and which rail runs.

use bx402::dispatch::{
    absolute_uri, classify, cold_402, collision_400, context, dispatch, host, scheme, Context, Plan,
    Rail,
};
use bx402::endpoints::{endpoints, find, SEARCH_RATE};
use bx402::http::{Headers, Reply, RequestHead};
use bx402::metrics::{ChallengeReason, Metrics};
use bx402::recording::record_plan;
use bx402::x402::accepts;
use bx402::{AppError, Config};
use serde_json::Value;
use x402_types::util::Base64Bytes;

const EXPIRES: &str = "2030-02-28T23:59:59.5Z";

fn headers(pairs: &[(&str, &str)]) -> Headers {
    let mut headers = Headers::new();
    for (name, value) in pairs {
        headers.append(name, value);
    }
    headers
}

fn head(target: &str, pairs: &[(&str, &str)]) -> RequestHead {
    RequestHead {
        method: "GET".to_string(),
        scheme: None,
        authority: None,
        path: target.split('?').next().unwrap().to_string(),
        path_and_query: Some(target.to_string()),
        headers: headers(pairs),
    }
}

fn ctx(config: Config) -> Context {
    let chain = config.mpp.as_ref().map(|_| 42431);
    context(&config, chain, None)
        .ok()
        .expect("the test config is served")
}

fn decode_challenge(value: &str) -> Value {
    let bytes = Base64Bytes::from(value.as_bytes())
        .decode()
        .expect("the challenge is base64");
    serde_json::from_slice(&bytes).expect("the challenge is JSON")
}

/// The `payment-signature` of a payment that accepts the first offer for web search.
fn payment_signature() -> String {
    let body = format!("{{\"accepted\":{},\"payload\":{{}}}}", accepts(SEARCH_RATE, true)[0]);
    Base64Bytes::encode(body).to_string()
}

/// The headers that a request on `rail` carries.
fn headers_for(rail: Rail) -> Vec<(&'static str, String)> {
    let x402 = ("payment-signature", payment_signature());
    let mpp = ("authorization", "Payment test-cred".to_string());
    match rail {
        Rail::Cold => vec![],
        Rail::X402 => vec![x402],
        Rail::Mpp => vec![mpp],
        Rail::Both => vec![x402, mpp],
    }
}

/// A `GET` of `target` carrying the payment headers for `rail`.
fn request_for(target: &str, rail: Rail) -> RequestHead {
    let pairs = headers_for(rail);
    let pairs: Vec<(&str, &str)> = pairs
        .iter()
        .map(|(name, value)| (*name, value.as_str()))
        .collect();
    head(target, &pairs)
}

/// Whether `reply` is the cold `402`: an empty body, and a challenge header for exactly the
/// rails in `advertises`.
fn assert_cold_402(reply: &Reply, advertises: &[Rail]) {
    assert_eq!(reply.status, 402);
    assert_eq!(
        reply.headers.get("payment-required").is_some(),
        advertises.contains(&Rail::X402),
        "x402 challenge"
    );
    assert_eq!(
        reply.headers.get("www-authenticate").is_some(),
        advertises.contains(&Rail::Mpp),
        "mpp challenge"
    );
    assert!(reply.body.is_empty());
}

struct Case {
    /// Label printed if the assertion fails.
    name: &'static str,
    /// Request headers to send, as `(name, value)` pairs.
    headers: Vec<(&'static str, &'static str)>,
    /// The rail `classify` should return for those headers.
    expected: Rail,
}

#[test]
fn classify_by_payment_headers() {
    let cases = [
        Case {
            name: "cold",
            headers: vec![],
            expected: Rail::Cold,
        },
        Case {
            name: "x402 v2",
            headers: vec![("payment-signature", "sig")],
            expected: Rail::X402,
        },
        Case {
            name: "mpp",
            headers: vec![("authorization", "cred")],
            expected: Rail::Mpp,
        },
        Case {
            name: "both",
            headers: vec![("payment-signature", "sig"), ("authorization", "cred")],
            expected: Rail::Both,
        },
        // x402 V1 wire (`X-PAYMENT`) is not accepted, so it reads as no payment.
        Case {
            name: "x402 v1 ignored",
            headers: vec![("x-payment", "sig")],
            expected: Rail::Cold,
        },
        // A V1 header alongside MPP is therefore an MPP attempt, not a collision.
        Case {
            name: "x402 v1 + mpp",
            headers: vec![("x-payment", "sig"), ("authorization", "cred")],
            expected: Rail::Mpp,
        },
        // Header names are case-insensitive, so the client's casing must never change
        // classification.
        Case {
            name: "mixed-case names",
            headers: vec![("Payment-Signature", "sig"), ("AUTHORIZATION", "cred")],
            expected: Rail::Both,
        },
    ];
    for Case {
        name,
        headers: pairs,
        expected,
    } in cases
    {
        assert_eq!(classify(&headers(&pairs)), expected, "case: {name}");
    }
}

#[test]
fn cold_402_advertises_both_rails() {
    let ctx = ctx(Config::for_tests());
    let request = head(
        "/res/v1/web/search?q=rust",
        &[
            ("host", "bx402.example.com"),
            ("x-forwarded-proto", "https"),
        ],
    );
    let endpoint = find("/res/v1/web/search").unwrap();
    let response = cold_402(&ctx, &request, &endpoint, EXPIRES);
    assert_eq!(response.status, 402);

    // MPP rail: a `Payment` challenge in `WWW-Authenticate`.
    let challenge = response
        .headers
        .text("www-authenticate")
        .expect("the MPP challenge is advertised");
    assert!(challenge.starts_with("Payment "));
    // It is the signed challenge for this endpoint's charge.
    let parsed = mpp::parse_www_authenticate(&challenge).expect("the challenge parses back");
    assert_eq!(parsed.realm, "bx402");
    assert_eq!(parsed.expires.as_deref(), Some(EXPIRES));
    assert!(parsed.verify("test-secret"));
    assert!(!parsed.verify("another-secret"));
    let charge: Value = parsed.request.decode_value().unwrap();
    assert_eq!(charge["amount"], "5000");
    assert_eq!(charge["methodDetails"]["chainId"], 42431);

    // x402 rail: V2 payment requirements in the `Payment-Required` header.
    let requirements = decode_challenge(
        &response
            .headers
            .text("payment-required")
            .expect("the x402 challenge is advertised"),
    );
    assert_eq!(requirements["x402Version"], 2);
    assert!(requirements["accepts"].is_array());
    assert!(requirements["extensions"]["mppx"]["info"].is_object());

    // The body carries nothing, V2 clients read only the headers.
    assert!(response.body.is_empty());
}

#[test]
fn cold_402_advertises_the_absolute_request_url_as_resource() {
    let request = head(
        "/res/v1/web/search?q=rust",
        &[("host", "api.bx402.io"), ("x-forwarded-proto", "https")],
    );
    let ctx = ctx(Config::for_tests());
    let endpoint = match dispatch(&ctx, &request) {
        Plan::Challenge(endpoint, ChallengeReason::NoPayment) => endpoint,
        _ => panic!("a cold request is challenged"),
    };
    let response = cold_402(&ctx, &request, &endpoint, EXPIRES);
    let challenge = decode_challenge(&response.headers.text("payment-required").unwrap());
    assert_eq!(
        challenge["resource"]["url"],
        "https://api.bx402.io/res/v1/web/search?q=rust"
    );
    // The route binding names the method the request arrived with.
    assert_eq!(challenge["extensions"]["mppx"]["info"]["method"], "GET");
}

#[test]
fn each_endpoint_answers_a_cold_402_at_its_own_price() {
    let ctx = ctx(Config::for_tests());
    for endpoint in endpoints() {
        let request = head(endpoint.path, &[]);
        let Plan::Challenge(found, _) = dispatch(&ctx, &request) else {
            panic!("a cold request is challenged");
        };
        let response = cold_402(&ctx, &request, &found, EXPIRES);
        let challenge = decode_challenge(&response.headers.text("payment-required").unwrap());
        for offer in challenge["accepts"].as_array().unwrap() {
            assert_eq!(offer["amount"], endpoint.price_base_units.to_string());
        }
        assert_eq!(challenge["resource"]["description"], endpoint.description);
    }
}

#[test]
fn an_unsold_endpoint_is_404_not_a_payable_402() {
    let ctx = ctx(Config::for_tests());
    for pairs in [vec![], vec![("payment-signature", "sig")]] {
        let plan = dispatch(&ctx, &head("/res/v1/chat/completions", &pairs));
        assert!(matches!(plan, Plan::NotSold));
    }
}

#[test]
fn a_challenge_that_cannot_be_sent_is_left_out() {
    let ctx = ctx(Config::for_tests());
    let request = head("/res/v1/web/search", &[]);
    let endpoint = find("/res/v1/web/search").unwrap();
    for expires in ["bad\nvalue", "bad\u{7f}value"] {
        let response = cold_402(&ctx, &request, &endpoint, expires);
        assert_eq!(response.status, 402);
        assert!(response.headers.get("www-authenticate").is_none());
        assert!(response.headers.get("payment-required").is_some());
    }
}

#[test]
fn x402_only_app_needs_no_rpc_and_cold_402s_an_mpp_attempt() {
    let ctx = ctx(Config::for_tests().without_mpp());
    let request = request_for("/res/v1/web/search?q=rust", Rail::Mpp);
    let Plan::Challenge(endpoint, reason) = dispatch(&ctx, &request) else {
        panic!("the MPP rail is off");
    };
    assert_eq!(reason, ChallengeReason::RailDisabled);
    // The cold challenge, not the MPP rail's refusal.
    assert_cold_402(&cold_402(&ctx, &request, &endpoint, EXPIRES), &[Rail::X402]);
}

#[test]
fn mpp_only_app_cold_402s_an_x402_attempt() {
    let ctx = ctx(Config::for_tests().without_x402());
    let request = request_for("/res/v1/web/search?q=rust", Rail::X402);
    let Plan::Challenge(endpoint, reason) = dispatch(&ctx, &request) else {
        panic!("the x402 rail is off");
    };
    assert_eq!(reason, ChallengeReason::RailDisabled);
    assert_cold_402(&cold_402(&ctx, &request, &endpoint, EXPIRES), &[Rail::Mpp]);

    // Carrying both rails' headers stays a collision, disabled rail or not.
    let both = request_for("/res/v1/web/search?q=rust", Rail::Both);
    assert!(matches!(dispatch(&ctx, &both), Plan::Collision(_)));
    assert_eq!(collision_400().status, 400);
}

#[test]
fn no_rails_app_402s_every_payment_attempt() {
    let ctx = ctx(Config::for_tests().without_x402().without_mpp());
    for rail in [Rail::Cold, Rail::Mpp, Rail::X402] {
        let request = request_for("/res/v1/web/search?q=rust", rail);
        let Plan::Challenge(endpoint, _) = dispatch(&ctx, &request) else {
            panic!("there is no rail to pay on");
        };
        let response = cold_402(&ctx, &request, &endpoint, EXPIRES);
        assert_cold_402(&response, &[]);
        assert!(response.headers.entries.is_empty());
    }

    // The health probe stays green, so a load balancer keeps the service up.
    assert_eq!(bx402::health().status, 200);
}

#[test]
fn challenges_record_why_they_were_issued() {
    let ctx = ctx(Config::for_tests());
    let mut metrics = Metrics::new();
    for (rail, reason) in [(Rail::Cold, "no_payment"), (Rail::Both, "collision")] {
        let plan = dispatch(&ctx, &request_for("/res/v1/web/search?q=rust", rail));
        record_plan(&mut metrics, &plan);
        let series = format!(
            "bx402_challenges_total{{endpoint=\"/res/v1/web/search\",reason=\"{reason}\"}} 1\n"
        );
        assert!(metrics.render().unwrap().contains(&series), "missing {series}");
    }
}

#[test]
fn a_payment_on_a_disabled_rail_is_counted_apart_from_a_cold_request() {
    let ctx = ctx(Config::for_tests().without_x402());
    let mut metrics = Metrics::new();
    let request = request_for("/res/v1/web/search?q=rust", Rail::X402);
    let plan = dispatch(&ctx, &request);
    record_plan(&mut metrics, &plan);
    let Plan::Challenge(endpoint, _) = plan else {
        panic!("the x402 rail is off");
    };
    assert_eq!(cold_402(&ctx, &request, &endpoint, EXPIRES).status, 402);
    assert!(metrics.render().unwrap().contains(
        "bx402_challenges_total{endpoint=\"/res/v1/web/search\",reason=\"rail_disabled\"} 1\n"
    ));
}

#[test]
fn a_plan_that_challenges_nobody_records_nothing() {
    let ctx = ctx(Config::for_tests());
    let mut metrics = Metrics::new();
    let fresh = metrics.render().unwrap();
    for request in [
        request_for("/res/v1/web/search?q=rust", Rail::X402),
        request_for("/res/v1/web/search?q=rust", Rail::Mpp),
        request_for("/res/v1/chat/completions", Rail::Cold),
    ] {
        record_plan(&mut metrics, &dispatch(&ctx, &request));
    }
    assert_eq!(metrics.render().unwrap(), fresh);
}

#[test]
fn dispatch_routes_by_payment_headers() {
    let ctx = ctx(Config::for_tests());
    let plan = |pairs: &[(&str, &str)]| dispatch(&ctx, &head("/res/v1/web/search?q=rust", pairs));
    assert!(matches!(
        plan(&[]),
        Plan::Challenge(_, ChallengeReason::NoPayment)
    ));
    assert!(matches!(
        plan(&[("payment-signature", "sig"), ("authorization", "cred")]),
        Plan::Collision(_)
    ));
    assert!(matches!(plan(&[("payment-signature", "sig")]), Plan::X402(..)));
    assert!(matches!(plan(&[("authorization", "cred")]), Plan::Mpp(..)));
    let collision = collision_400();
    assert_eq!(collision.status, 400);
    assert_eq!(
        collision.body,
        br#"{"error":"send exactly one payment rail, not both"}"#
    );
}

#[test]
fn a_context_needs_a_chain_the_rail_serves() {
    let refused = context(&Config::for_tests(), Some(1), None).err().unwrap();
    assert!(matches!(refused, AppError::InvalidConfig(_)));
    let production = Config {
        allow_testnet: false,
        ..Config::for_tests()
    };
    assert!(context(&production, Some(42431), None).is_err());
    let served = context(&production, Some(4217), None).ok().unwrap();
    assert!(!served.x402.unwrap().allow_testnet);
    assert_eq!(served.mpp.unwrap().chain_id, 4217);
}

#[test]
fn absolute_uri_rebuilds_the_requested_url() {
    struct Case {
        name: &'static str,
        uri: &'static str,
        headers: Vec<(&'static str, &'static str)>,
        expected: &'static str,
    }
    let cases = [
        Case {
            name: "forwarded proto and host, query kept",
            uri: "/res/v1/web/search?q=rust",
            headers: vec![
                ("host", "bx402.example.com"),
                ("x-forwarded-proto", "https"),
            ],
            expected: "https://bx402.example.com/res/v1/web/search?q=rust",
        },
        Case {
            name: "no host falls back to path and query",
            uri: "/res/v1/web/search?q=rust",
            headers: vec![],
            expected: "/res/v1/web/search?q=rust",
        },
        // A client refuses to pay a challenge naming a different URL than it
        // asked for, so the query comes back exactly as sent. Re-encoding `+`
        // as `%2B` (or the reverse) would break that comparison.
        Case {
            name: "query repeated byte for byte",
            uri: "/res/v1/web/search?q=base+sepolia&count=2",
            headers: vec![("host", "localhost:8080")],
            expected: "http://localhost:8080/res/v1/web/search?q=base+sepolia&count=2",
        },
        Case {
            name: "scheme defaults to http",
            uri: "/res/v1/web/search",
            headers: vec![("host", "localhost:8080")],
            expected: "http://localhost:8080/res/v1/web/search",
        },
    ];
    for Case {
        name,
        uri,
        headers,
        expected,
    } in cases
    {
        assert_eq!(absolute_uri(&head(uri, &headers)), expected, "case: {name}");
    }
}

#[test]
fn the_targets_own_scheme_and_authority_are_fallbacks() {
    let mut request = head("/res/v1/web/search", &[("host", "")]);
    request.scheme = Some("https".to_string());
    request.authority = Some("authority.example".to_string());
    assert_eq!(host(&request).as_deref(), Some("authority.example"));
    assert_eq!(scheme(&request), "https");
    assert_eq!(
        absolute_uri(&request),
        "https://authority.example/res/v1/web/search"
    );
    // A host that is present and valid UTF-8 is read.
    request.headers = headers(&[("host", "caf\u{e9}.example")]);
    assert_eq!(host(&request).as_deref(), Some("caf\u{e9}.example"));
    // One that is not UTF-8 is no host.
    request.headers = Headers::new();
    request.headers.insert("host", vec![b'c', 0xe9]);
    assert_eq!(host(&request).as_deref(), Some("authority.example"));
    request.path_and_query = None;
    request.authority = None;
    assert_eq!(absolute_uri(&request), "/");
}
