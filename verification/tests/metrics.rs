//! What is recorded, as the exposition tells it.

use bx402::metrics::{
    duration_buckets, expose, measure, ChallengeReason, Metrics, PaymentRail, PaymentStep,
};
use bx402::payment::Outcome;
use bx402::recording::record_search;
use bx402::search::Fetched;
use bx402::VERSION;

fn rendered(metrics: &Metrics) -> String {
    metrics.render().expect("metrics render")
}

#[test]
fn the_exposition_carries_the_running_version() {
    let rendered = rendered(&Metrics::new());
    assert!(
        rendered.contains(&format!("bx402_build_info{{version=\"{VERSION}\"}} 1")),
        "build info missing from:\n{rendered}"
    );
}

#[test]
fn the_exposition_describes_the_build() {
    let mut metrics = Metrics::new();
    // Whatever else is recorded, the build metric is rendered whole.
    measure(&mut metrics, "/health", "GET", 200, 1_000);
    metrics.record_step(PaymentRail::X402, PaymentStep::Verify, 1_000);
    let rendered = rendered(&metrics);
    let expected = format!(
        "# HELP bx402_build Version of the running service.\n# TYPE bx402_build info\nbx402_build_info{{version=\"{VERSION}\"}} 1\n"
    );
    assert!(rendered.contains(&expected), "missing from:\n{rendered}");
    assert!(rendered.ends_with("# EOF\n"), "unterminated:\n{rendered}");
}

#[test]
fn a_fresh_exposition_holds_the_build_and_nothing_else() {
    let expected = format!(
        "# HELP bx402_build Version of the running service.\n# TYPE bx402_build info\nbx402_build_info{{version=\"{VERSION}\"}} 1\n# EOF\n"
    );
    let fresh = Metrics::new();
    assert_eq!(rendered(&fresh), expected);
    // Nothing recorded into one registry shows in another.
    let mut other = Metrics::new();
    measure(&mut other, "/health", "GET", 200, 1);
    other.record_upstream("/res/v1/web/search", "200", 1);
    assert_eq!(rendered(&fresh), expected);
}

#[test]
fn a_family_is_rendered_whole() {
    let mut metrics = Metrics::new();
    metrics.record_challenge("a\\b\"c\nd", ChallengeReason::Collision);
    metrics.record_step(PaymentRail::Mpp, PaymentStep::Charge, 60_000_000);
    metrics.record_step(PaymentRail::Mpp, PaymentStep::Charge, 9_000_000_000);
    let rendered = rendered(&metrics);
    let challenges = "# HELP bx402_challenges Requests challenged instead of served, by endpoint and reason.\n\
        # TYPE bx402_challenges counter\n\
        bx402_challenges_total{endpoint=\"a\\\\b\\\"c\\nd\",reason=\"collision\"} 1\n";
    assert!(rendered.contains(challenges), "missing from:\n{rendered}");
    let mut steps = String::from(
        "# HELP bx402_payment_step_duration_seconds Time for one step of a payment, by rail and step.\n\
        # TYPE bx402_payment_step_duration_seconds histogram\n\
        bx402_payment_step_duration_seconds_sum{rail=\"mpp\",step=\"charge\"} 9.06\n\
        bx402_payment_step_duration_seconds_count{rail=\"mpp\",step=\"charge\"} 2\n",
    );
    let bounds = [
        ("0.05", 0), ("0.1", 1), ("0.25", 1), ("0.5", 1), ("1.0", 1), ("2.0", 1), ("3.0", 1),
        ("5.0", 1), ("8.0", 1), ("15.0", 2), ("30.0", 2), ("+Inf", 2),
    ];
    for (bound, count) in bounds {
        steps.push_str(&format!(
            "bx402_payment_step_duration_seconds_bucket{{le=\"{bound}\",rail=\"mpp\",step=\"charge\"}} {count}\n"
        ));
    }
    steps.push_str("# EOF\n");
    assert!(rendered.ends_with(&steps), "missing from:\n{rendered}");
}

#[test]
fn the_exposition_ends_the_way_openmetrics_requires() {
    let rendered = rendered(&Metrics::new());
    assert!(rendered.ends_with("# EOF\n"), "unterminated:\n{rendered}");
}

#[test]
fn every_request_is_counted_with_its_endpoint_method_and_status() {
    let mut metrics = Metrics::default();
    measure(&mut metrics, "/health", "GET", 200, 1_000);
    let rendered = rendered(&metrics);
    assert!(rendered.contains(
        r#"bx402_http_requests_total{endpoint="/health",method="GET",status="200"} 1"#
    ));
    assert!(rendered.contains(
        r#"bx402_http_request_duration_seconds_count{endpoint="/health",method="GET"} 1"#
    ));
}

#[test]
fn an_unsold_path_is_counted_without_minting_a_label() {
    let mut metrics = Metrics::new();
    measure(&mut metrics, "/res/v1/chat/completions", "GET", 404, 0);
    let rendered = rendered(&metrics);
    assert!(rendered
        .contains(r#"bx402_http_requests_total{endpoint="other",method="GET",status="404"} 1"#));
    assert!(!rendered.contains("completions"));
}

#[test]
fn an_upstream_error_is_counted_under_its_status() {
    let mut metrics = Metrics::new();
    let failed = Ok(Fetched {
        status: 500,
        content_type: None,
        body: b"brave is down".to_vec(),
    });
    record_search(&mut metrics, "/res/v1/web/search", &failed, 2_000_000_000);
    metrics.record_upstream("/res/v1/web/search", "connect", 2_000_000_001);
    let rendered = rendered(&metrics);
    assert!(rendered.contains(
        r#"bx402_upstream_requests_total{endpoint="/res/v1/web/search",status="500"} 1"#
    ));
    assert!(rendered.contains(
        r#"bx402_upstream_requests_total{endpoint="/res/v1/web/search",status="connect"} 1"#
    ));
    assert!(rendered
        .contains(r#"bx402_upstream_duration_seconds_count{endpoint="/res/v1/web/search"} 2"#));
    // Two seconds fall in the two-second bucket, a nanosecond more in the next one.
    assert!(rendered.contains(
        r#"bx402_upstream_duration_seconds_bucket{le="1.0",endpoint="/res/v1/web/search"} 0"#
    ));
    assert!(rendered.contains(
        r#"bx402_upstream_duration_seconds_bucket{le="2.0",endpoint="/res/v1/web/search"} 1"#
    ));
    assert!(rendered.contains(
        r#"bx402_upstream_duration_seconds_bucket{le="3.0",endpoint="/res/v1/web/search"} 2"#
    ));
}

#[test]
fn the_buckets_straddle_the_deadlines() {
    assert_eq!(
        duration_buckets(),
        [50, 100, 250, 500, 1000, 2000, 3000, 5000, 8000, 15000, 30000]
    );
    let mut metrics = Metrics::new();
    metrics.record_step(PaymentRail::Mpp, PaymentStep::Charge, 50_000_000);
    metrics.record_step(PaymentRail::Mpp, PaymentStep::Charge, u64::MAX);
    let rendered = rendered(&metrics);
    for (bound, expected) in [("0.05", 1), ("0.1", 1), ("0.25", 1), ("30.0", 1), ("+Inf", 2)] {
        let series = format!(
            "bx402_payment_step_duration_seconds_bucket{{le=\"{bound}\",rail=\"mpp\",step=\"charge\"}} {expected}"
        );
        assert!(rendered.contains(&series), "missing `{series}` in:\n{rendered}");
    }
}

#[test]
fn challenges_are_counted_by_reason() {
    let mut metrics = Metrics::new();
    for reason in [
        ChallengeReason::NoPayment,
        ChallengeReason::Collision,
        ChallengeReason::RailDisabled,
    ] {
        metrics.record_challenge("/res/v1/web/search", reason);
        metrics.record_challenge("/res/v1/web/search", reason);
    }
    let rendered = rendered(&metrics);
    for reason in ["no_payment", "collision", "rail_disabled"] {
        let series = format!(
            "bx402_challenges_total{{endpoint=\"/res/v1/web/search\",reason=\"{reason}\"}} 2"
        );
        assert!(rendered.contains(&series), "missing `{series}` in:\n{rendered}");
    }
}

#[test]
fn payments_are_counted_by_outcome_and_charges_summed() {
    let mut metrics = Metrics::new();
    let path = "/res/v1/web/search";
    metrics.record_payment(PaymentRail::X402, path, Outcome::Settled, Some(5000));
    metrics.record_payment(PaymentRail::X402, path, Outcome::Settled, Some(5000));
    let outcomes = [
        (Outcome::Refused, "refused"),
        (Outcome::UpstreamFailed, "upstream_failed"),
        (Outcome::SettleFailed, "settle_failed"),
        (Outcome::ScreenedOut, "screened_out"),
        (Outcome::ScreenUnavailable, "screen_unavailable"),
        (Outcome::Malformed, "malformed"),
        (Outcome::Unsupported, "unsupported"),
        (Outcome::NetworkUnavailable, "network_unavailable"),
    ];
    for (outcome, _) in outcomes {
        metrics.record_payment(PaymentRail::Mpp, path, outcome, None);
    }
    let rendered = rendered(&metrics);
    assert!(rendered.contains(
        r#"bx402_payments_total{rail="x402",endpoint="/res/v1/web/search",outcome="settled"} 2"#
    ));
    assert!(rendered.contains(
        r#"bx402_charged_base_units_total{rail="x402",endpoint="/res/v1/web/search"} 10000"#
    ));
    assert!(!rendered.contains(r#"bx402_charged_base_units_total{rail="mpp""#));
    for (_, label) in outcomes {
        let series = format!(
            "bx402_payments_total{{rail=\"mpp\",endpoint=\"/res/v1/web/search\",outcome=\"{label}\"}} 1"
        );
        assert!(rendered.contains(&series), "missing `{series}` in:\n{rendered}");
    }
}

#[test]
fn a_scrape_is_answered_with_the_exposition() {
    let reply = expose(Some("# EOF\n".to_string()));
    assert_eq!(reply.status, 200);
    assert_eq!(
        reply.headers.text("content-type").as_deref(),
        Some("application/openmetrics-text; version=1.0.0; charset=utf-8")
    );
    assert_eq!(reply.body, b"# EOF\n");
    assert_eq!(expose(None).status, 500);
}
