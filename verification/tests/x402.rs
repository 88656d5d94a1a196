//! The x402 rail: offers, payment proofs, and the pay flow.

use bx402::endpoints::{find, Endpoint, SEARCH_RATE, UTILITY_RATE};
use bx402::http::{Headers, Reply};
use bx402::json::{Json, Member};
use bx402::metrics::{Metrics, PaymentRail};
use bx402::payment::{Answer, Outcome};
use bx402::recording::{record_answer, record_call};
use bx402::screener::{HeadAnswer, RestrictedAddressScreener};
use bx402::search::{search, Fetched};
use bx402::x402::{
    accepts, attach_receipt, challenge, challenge_header, decode_payment, find_accepted, handle,
    is_settled, is_valid, judged, payer_address, receipted, screened, searched, settled, verified, Client, Step,
    PAY_TO_EVM,
};
use serde_json::Value;
use x402_types::util::Base64Bytes;

const CLIENT: Client = Client {
    allow_testnet: true,
};

fn json(text: &str) -> Value {
    serde_json::from_str(text).expect("the test writes JSON")
}

fn plain(value: &Value) -> Json {
    match value {
        Value::Null => Json::Null,
        Value::Bool(b) => Json::Bool(*b),
        Value::Number(n) => Json::Number(n.to_string()),
        Value::String(t) => Json::Text(t.clone()),
        Value::Array(items) => Json::List(items.iter().map(plain).collect()),
        Value::Object(members) => Json::Object(
            members
                .iter()
                .map(|(name, value)| Member {
                    name: name.clone(),
                    value: plain(value),
                })
                .collect(),
        ),
    }
}

fn web_search() -> Endpoint {
    find("/res/v1/web/search").expect("web search is sold")
}

/// The payload that accepts `offer`, with `payload` as the scheme payload.
fn payload(offer: &Value, payload: &str) -> Value {
    json(&format!("{{\"accepted\":{offer},\"payload\":{payload}}}"))
}

/// Headers carrying `payload` as the base64 `PAYMENT-SIGNATURE`.
fn payment_headers(payload: &Value) -> Headers {
    let mut headers = Headers::new();
    let encoded = Base64Bytes::encode(payload.to_string()).to_string();
    headers.append("Payment-Signature", &encoded);
    headers
}

/// Headers that accept the first offer for web search, paid by `from`.
fn paid_by(from: &str) -> Headers {
    let offers = accepts(SEARCH_RATE, true);
    payment_headers(&payload(
        &offers[0],
        &format!("{{\"authorization\":{{\"from\":\"{from}\"}}}}"),
    ))
}

fn ok_reply(body: &str) -> Reply {
    let mut reply = Reply::bare(200);
    reply.body = body.as_bytes().to_vec();
    reply
}

/// What the outside answers, and which of it was asked.
struct Outside {
    screening: HeadAnswer,
    verify: Option<Value>,
    search: u16,
    settle: Option<Value>,
    calls: Vec<&'static str>,
    metrics: Metrics,
}

fn outside(verify: Option<&str>, search: u16, settle: Option<&str>) -> Outside {
    Outside {
        screening: HeadAnswer::NotFound,
        verify: verify.map(json),
        search,
        settle: settle.map(json),
        calls: Vec::new(),
        metrics: Metrics::new(),
    }
}

impl Outside {
    /// Run the flow, and record what is recorded of it.
    fn run(&mut self, first: Step) -> Answer {
        let mut step = first;
        loop {
            record_call(&mut self.metrics, PaymentRail::X402, step.payment_step(), 1_000);
            step = match step {
                Step::Screen(order, _) => {
                    self.calls.push("screen");
                    screened(order, self.screening)
                }
                Step::Verify(order) => {
                    self.calls.push("verify");
                    verified(order, self.verify.take())
                }
                Step::Search(order) => {
                    self.calls.push("search");
                    let mut reply = ok_reply("{\"web\":{}}");
                    reply.status = self.search;
                    searched(order, reply)
                }
                Step::Settle(order, reply) => {
                    self.calls.push("settle");
                    settled(order, reply, self.settle.take())
                }
                Step::Done(answer) => {
                    record_answer(&mut self.metrics, PaymentRail::X402, &web_search(), &answer);
                    return answer;
                }
            }
        }
    }

    /// Whether exactly one payment for web search ended in `outcome`.
    fn assert_payment_outcome(&self, outcome: &str) {
        let rendered = self.metrics.render().unwrap();
        let series = format!(
            "bx402_payments_total{{rail=\"x402\",endpoint=\"/res/v1/web/search\",outcome=\"{outcome}\"}} 1\n"
        );
        assert!(rendered.contains(&series), "missing `{series}` in:\n{rendered}");
    }
}

const VALID: Option<&str> = Some("{\"isValid\":true,\"payer\":\"0x1\"}");
const SETTLED: Option<&str> = Some("{\"success\":true,\"transaction\":\"0x4f2b\"}");

#[test]
fn without_the_testnet_flag_only_mainnet_is_offered() {
    let entries = accepts(SEARCH_RATE, false);
    let [only] = entries.as_slice() else {
        panic!("a production config offers only mainnet");
    };
    assert_eq!(only["network"], "eip155:8453"); // Base mainnet
}

#[test]
fn decode_accepts_only_an_advertised_offer() {
    let entries = || accepts(SEARCH_RATE, true);
    let advertised = json(&format!("{{\"accepted\":{}}}", entries()[0]));
    assert!(decode_payment(&payment_headers(&advertised), entries()).is_some());

    // A tampered offer (here, a self-granted discount) is refused.
    let mut discounted = entries()[0].clone();
    discounted["amount"] = Value::String("1".to_string());
    let tampered = json(&format!("{{\"accepted\":{discounted}}}"));
    assert!(decode_payment(&payment_headers(&tampered), entries()).is_none());

    // So is a payload naming no offer at all.
    assert!(decode_payment(&payment_headers(&json("{}")), entries()).is_none());
}

#[test]
fn an_offer_is_matched_whatever_the_order_of_its_members() {
    let entries: Vec<Json> = accepts(SEARCH_RATE, true).iter().map(plain).collect();
    let Json::Object(mut members) = plain(&accepts(SEARCH_RATE, true)[1]) else {
        panic!("an offer is an object");
    };
    members.reverse();
    let accepting = |offer: Json| {
        Json::Object(vec![Member {
            name: "accepted".to_string(),
            value: offer,
        }])
    };
    assert_eq!(
        find_accepted(&accepting(Json::Object(members)), &entries),
        Some(1)
    );
    // One member less is another offer.
    let Json::Object(mut members) = plain(&accepts(SEARCH_RATE, true)[1]) else {
        panic!("an offer is an object");
    };
    members.pop();
    assert_eq!(
        find_accepted(&accepting(Json::Object(members)), &entries),
        None
    );
    assert_eq!(find_accepted(&Json::Null, &entries), None);
}

#[test]
fn the_facilitator_gets_the_payload_and_the_advertised_offer() {
    let offers = accepts(SEARCH_RATE, true);
    let made = payload(&offers[1], "{\"authorization\":{\"from\":\"0xAB\",\"value\":1.5}}");
    let payment = decode_payment(&payment_headers(&made), accepts(SEARCH_RATE, true))
        .expect("the offer is advertised");
    assert_eq!(
        payment.request,
        format!(
            "{{\"x402Version\":2,\"paymentPayload\":{made},\"paymentRequirements\":{}}}",
            offers[1]
        )
    );
    assert_eq!(payment.payer.as_deref(), Some("0xab"));
}

#[test]
fn numbers_reach_the_facilitator_as_serde_json_writes_them() {
    let offers = accepts(SEARCH_RATE, true);
    let text = format!(
        "{{\"accepted\":{},\"n\":[1.50,1e2,-0,18446744073709551615,0.1]}}",
        offers[0]
    );
    let mut headers = Headers::new();
    headers.append("payment-signature", &Base64Bytes::encode(&text).to_string());
    let payment = decode_payment(&headers, accepts(SEARCH_RATE, true)).unwrap();
    assert!(payment
        .request
        .contains("\"n\":[1.5,100.0,-0.0,18446744073709551615,0.1]"));
}

#[test]
fn only_a_readable_header_carries_a_payment() {
    let entries = || accepts(SEARCH_RATE, true);
    assert!(decode_payment(&Headers::new(), entries()).is_none());
    for value in ["not base64!", "bm90IGpzb24=", "\u{e9}"] {
        let mut headers = Headers::new();
        headers.append("payment-signature", value);
        assert!(decode_payment(&headers, entries()).is_none(), "value: {value}");
    }
}

#[test]
fn the_payer_is_the_authorizations_from_in_lower_case() {
    let read = |text: &str| payer_address(&plain(&json(text)));
    assert_eq!(
        read("{\"payload\":{\"authorization\":{\"from\":\"0xAbC\"}}}").as_deref(),
        Some("0xabc")
    );
    assert_eq!(read("{\"payload\":{\"authorization\":{\"from\":7}}}"), None);
    assert_eq!(read("{\"payload\":{\"permit2\":{\"from\":\"0xAbC\"}}}"), None);
    assert_eq!(read("{\"payload\":[]}"), None);
    assert_eq!(read("null"), None);
}

#[test]
fn only_true_confirms() {
    assert!(is_valid(&plain(&json("{\"isValid\":true}"))));
    for text in ["{\"isValid\":false}", "{\"isValid\":\"true\"}", "{}", "true"] {
        assert!(!is_valid(&plain(&json(text))), "response: {text}");
    }
    assert!(is_settled(&plain(&json("{\"success\":true}"))));
    assert!(!is_settled(&plain(&json("{\"success\":1}"))));
    assert!(!is_settled(&plain(&json("{\"isValid\":true}"))));
}

#[test]
fn challenge_emits_the_full_payment_required_payload() {
    // Every offer field is spelled out so an upstream change to the SDK's
    // consts fails here instead of silently moving the charge.
    let body = challenge(
        &accepts(SEARCH_RATE, true),
        "https://bx402.example.com/res/v1/web/search",
        "/res/v1/web/search",
    );
    let expected = json(
        r#"{
            "x402Version": 2,
            "error": "Payment required",
            "resource": {
                "url": "https://bx402.example.com/res/v1/web/search",
                "description": "Brave Search API - Web / Search",
                "mimeType": "application/json"
            },
            "accepts": [
                {
                    "scheme": "exact",
                    "network": "eip155:8453",
                    "amount": "5000",
                    "asset": "0x833589fCD6eDb6E08f4c7C32D4f71b54bdA02913",
                    "payTo": "0xbd9420A98a7Bd6B89765e5715e169481602D9c3d",
                    "maxTimeoutSeconds": 300,
                    "extra": {
                        "assetTransferMethod": "eip3009",
                        "name": "USD Coin",
                        "version": "2"
                    }
                },
                {
                    "scheme": "exact",
                    "network": "eip155:84532",
                    "amount": "5000",
                    "asset": "0x036CbD53842c5426634e7929541eC2318f3dCF7e",
                    "payTo": "0xbd9420A98a7Bd6B89765e5715e169481602D9c3d",
                    "maxTimeoutSeconds": 300,
                    "extra": {
                        "assetTransferMethod": "eip3009",
                        "name": "USDC",
                        "version": "2"
                    }
                }
            ]
        }"#,
    );
    assert_eq!(body, expected);
    // The members stand in the envelope's own order.
    assert!(body
        .to_string()
        .starts_with(r#"{"x402Version":2,"error":"Payment required","resource":{"url":"#));
    assert!(body.to_string().contains(
        r#"{"scheme":"exact","network":"eip155:8453","amount":"5000","payTo":"0xbd9420A98a7Bd6B89765e5715e169481602D9c3d","maxTimeoutSeconds":300,"asset":"0x833589fCD6eDb6E08f4c7C32D4f71b54bdA02913","extra":{"assetTransferMethod":"eip3009","name":"USD Coin","version":"2"}}"#
    ));
}

#[test]
fn the_challenge_header_binds_the_method() {
    let offers = accepts(UTILITY_RATE, false);
    let value = challenge_header(&offers, "http://h/res/v1/suggest/search", "/res/v1/suggest/search", "GET");
    let bytes = Base64Bytes::from(value.as_bytes()).decode().expect("the header is base64");
    let document: Value = serde_json::from_slice(&bytes).expect("the header holds JSON");
    assert_eq!(document["extensions"]["mppx"]["info"]["method"], "GET");
    assert_eq!(document["accepts"][0]["amount"], "500");
    assert_eq!(
        document["resource"]["description"],
        "Brave Search API - Autosuggest"
    );
}

#[test]
fn a_cheap_endpoints_payment_does_not_buy_a_dear_one() {
    let cheap = accepts(UTILITY_RATE, true);
    for offer in &cheap {
        let made = payload(offer, "{}");
        assert!(decode_payment(&payment_headers(&made), accepts(UTILITY_RATE, true)).is_some());
        assert!(decode_payment(&payment_headers(&made), accepts(SEARCH_RATE, true)).is_none());
    }
    // Nor does faucet money where the testnet is off.
    let faucet = payload(&accepts(SEARCH_RATE, true)[1], "{}");
    assert!(decode_payment(&payment_headers(&faucet), accepts(SEARCH_RATE, false)).is_none());
}

#[test]
fn verified_payment_runs_the_search_and_returns_a_settlement_receipt() {
    let mut world = outside(VALID, 200, SETTLED);
    let first = handle(&CLIENT, None, &paid_by("0xAB"), web_search());
    let answer = world.run(first);
    assert_eq!(world.calls, ["verify", "search", "settle"]);
    assert_eq!(answer.reply.status, 200);
    assert_eq!(answer.outcome, Outcome::Settled);
    assert_eq!(answer.charged, Some(5000));
    let header = answer
        .reply
        .headers
        .text("payment-response")
        .expect("settled response carries a Payment-Response receipt");
    let bytes = Base64Bytes::from(header.as_bytes()).decode().unwrap();
    let receipt: Value = serde_json::from_slice(&bytes).unwrap();
    assert_eq!(receipt, json(SETTLED.unwrap()));
    // The upstream body is relayed unchanged underneath the receipt header.
    assert_eq!(answer.reply.body, b"{\"web\":{}}");
}

#[test]
fn rejected_payment_returns_402_and_never_calls_upstream() {
    let mut world = outside(Some("{\"isValid\":false}"), 200, SETTLED);
    let answer = world.run(handle(&CLIENT, None, &paid_by("0xAB"), web_search()));
    assert_eq!(world.calls, ["verify"]);
    assert_eq!(answer.reply.status, 402);
    assert_eq!(answer.outcome, Outcome::Refused);
    assert_eq!(answer.charged, None);
    assert!(answer.reply.headers.get("payment-response").is_none());
    assert_eq!(answer.reply.body, br#"{"error":"x402 payment did not verify"}"#);
}

#[test]
fn a_malformed_payment_reaches_nothing() {
    let mut headers = Headers::new();
    headers.append("payment-signature", "sig");
    let mut world = outside(VALID, 200, SETTLED);
    let answer = world.run(handle(&CLIENT, None, &headers, web_search()));
    assert!(world.calls.is_empty());
    assert_eq!(answer.reply.status, 402);
    assert_eq!(answer.outcome, Outcome::Malformed);
    assert_eq!(
        answer.reply.body,
        br#"{"error":"malformed x402 payment payload"}"#
    );
}

#[test]
fn an_unreachable_facilitator_is_a_gateway_error() {
    let mut world = outside(None, 200, SETTLED);
    let answer = world.run(handle(&CLIENT, None, &paid_by("0xAB"), web_search()));
    assert_eq!(world.calls, ["verify"]);
    assert_eq!(answer.reply.status, 502);
    assert_eq!(answer.outcome, Outcome::NetworkUnavailable);
    assert_eq!(
        answer.reply.body,
        br#"{"error":"payment facilitator unavailable"}"#
    );
}

#[test]
fn a_failed_search_is_relayed_and_never_settled() {
    let mut world = outside(VALID, 500, SETTLED);
    let answer = world.run(handle(&CLIENT, None, &paid_by("0xAB"), web_search()));
    assert_eq!(world.calls, ["verify", "search"]);
    assert_eq!(answer.reply.status, 500);
    assert_eq!(answer.reply.body, b"{\"web\":{}}");
    assert_eq!(answer.outcome, Outcome::UpstreamFailed);
    assert_eq!(answer.charged, None);
    assert!(answer.reply.headers.get("payment-response").is_none());
}

#[test]
fn upstream_5xx_is_relayed_byte_for_byte() {
    let order = match handle(&CLIENT, None, &paid_by("0xAB"), web_search()) {
        Step::Verify(order) => order,
        _ => panic!("the payment is verified first"),
    };
    let Step::Search(order) = verified(order, VALID.map(json)) else {
        panic!("a valid payment runs the search");
    };
    let reply = search(Ok(Fetched {
        status: 500,
        content_type: Some(b"text/plain".to_vec()),
        body: b"brave is down".to_vec(),
    }));
    let Step::Done(answer) = searched(order, reply) else {
        panic!("a failed search is not settled");
    };
    assert_eq!(answer.reply.status, 500);
    // Settlement is gated on a successful search, so a relayed upstream error is never
    // charged: no settle call, no receipt. Only successful searches are billed.
    assert!(
        answer.reply.headers.get("payment-response").is_none(),
        "a failed search must not be settled, so it carries no receipt",
    );
    assert_eq!(answer.reply.body, b"brave is down");
}

#[test]
fn a_settled_payment_records_its_outcome_price_and_step_timings() {
    let mut world = outside(
        Some("{\"isValid\": true}"),
        200,
        Some("{\"success\": true, \"transaction\": \"0xtxhash\"}"),
    );
    let answer = world.run(handle(&CLIENT, None, &paid_by("0xAB"), web_search()));
    assert_eq!(answer.reply.status, 200);
    let untouched = Metrics::new();
    let before = untouched.render().unwrap();
    let rendered = world.metrics.render().unwrap();
    for series in [
        r#"bx402_payments_total{rail="x402",endpoint="/res/v1/web/search",outcome="settled"} 1"#,
        // The catalog price, not anything the payer stated.
        r#"bx402_charged_base_units_total{rail="x402",endpoint="/res/v1/web/search"} 5000"#,
        r#"bx402_payment_step_duration_seconds_count{rail="x402",step="verify"} 1"#,
        r#"bx402_payment_step_duration_seconds_count{rail="x402",step="settle"} 1"#,
    ] {
        assert!(rendered.contains(series), "missing `{series}` in:\n{rendered}");
    }
    // Every registry is its own.
    assert_eq!(untouched.render().unwrap(), before);
}

#[test]
fn each_way_a_payment_fails_records_its_own_outcome() {
    let paid = |valid: bool, settles: bool, upstream_status: u16| {
        let verify = format!("{{\"isValid\":{valid}}}");
        let settle = if settles {
            "{\"success\":true,\"transaction\":\"0xtxhash\"}"
        } else {
            "{\"success\":false,\"error_reason\":\"settlement_failed\"}"
        };
        let mut world = outside(Some(&verify), upstream_status, Some(settle));
        let answer = world.run(handle(&CLIENT, None, &paid_by("0xAB"), web_search()));
        (answer.reply, world)
    };

    let (reply, world) = paid(false, true, 200);
    assert_eq!(reply.status, 402);
    world.assert_payment_outcome("refused");

    // Verified, then the search failed: relayed as is, and never charged.
    let (reply, world) = paid(true, true, 500);
    assert_eq!(reply.status, 500);
    world.assert_payment_outcome("upstream_failed");
    let rendered = world.metrics.render().unwrap();
    assert!(!rendered.contains("bx402_charged_base_units_total{"));
    assert!(!rendered.contains("step=\"settle\""));

    // Verified, then settlement declined.
    let (reply, world) = paid(true, false, 200);
    assert_eq!(reply.status, 502);
    world.assert_payment_outcome("settle_failed");
}

#[test]
fn a_blocked_payer_records_a_screened_out_payment() {
    let from = "0xAb5801a7D398351b8bE11C439e05C5B3259aeC9B";
    let screener = RestrictedAddressScreener::new("listed".to_string());
    let first = handle(&CLIENT, Some(&screener), &paid_by(from), web_search());
    // Clients send the checksummed form; the list holds it in lower case.
    let stored = from.to_ascii_lowercase();
    match &first {
        Step::Screen(_, lookup) => assert_eq!(lookup.key, screener.screen(&stored).key),
        _ => panic!("the payer is screened first"),
    }
    let mut world = outside(None, 200, None);
    world.screening = HeadAnswer::Found;
    let answer = world.run(first);
    assert_eq!(answer.reply.status, 402);
    assert_eq!(world.calls, ["screen"]);
    world.assert_payment_outcome("screened_out");
}

#[test]
fn every_offer_is_paid_to_the_treasury() {
    for price in [0, SEARCH_RATE, u64::MAX] {
        for offer in accepts(price, true) {
            let recipient = offer["payTo"].as_str().unwrap();
            assert!(recipient.starts_with("0x"));
            assert!(recipient.eq_ignore_ascii_case(PAY_TO_EVM));
        }
    }
}

#[test]
fn the_two_zeros_are_one_number() {
    let number = |text: &str| Json::Number(text.to_string());
    assert!(number("0.0").same(&number("-0.0")));
    assert!(!number("0").same(&number("0.0")));
    assert!(!number("1").same(&number("1.0")));
    assert!(number("300").same(&number("300")));
    assert_eq!(json("0.0"), json("-0.0"));
    assert_ne!(json("0"), json("0.0"));
}

#[test]
fn unsettled_payment_withholds_a_successful_body() {
    // Declined and unreachable read the same.
    for settle in [Some("{\"success\":false}"), None] {
        let mut world = outside(VALID, 200, settle);
        let answer = world.run(handle(&CLIENT, None, &paid_by("0xAB"), web_search()));
        assert_eq!(world.calls, ["verify", "search", "settle"]);
        assert_eq!(answer.reply.status, 502);
        assert!(answer.reply.headers.get("payment-response").is_none());
        assert_eq!(
            answer.reply.body,
            br#"{"error":"x402 payment could not be settled"}"#
        );
        assert_eq!(answer.outcome, Outcome::SettleFailed);
        assert_eq!(answer.charged, None);
    }
}

#[test]
fn blocked_signer_is_refused_before_any_call() {
    // Clients send the checksummed form. The rail lowercases it, so the stored key is
    // lowercase.
    let from = "0xAb5801a7D398351b8bE11C439e05C5B3259aeC9B";
    let screener = RestrictedAddressScreener::new("listed".to_string());
    let first = handle(&CLIENT, Some(&screener), &paid_by(from), web_search());
    match &first {
        Step::Screen(_, lookup) => assert_eq!(
            lookup.key,
            screener.screen(&from.to_ascii_lowercase()).key
        ),
        _ => panic!("the payer is screened first"),
    }
    let mut world = outside(VALID, 200, SETTLED);
    world.screening = HeadAnswer::Found;
    let answer = world.run(first);
    assert_eq!(world.calls, ["screen"]);
    assert_eq!(answer.reply.status, 402);
    assert_eq!(answer.outcome, Outcome::ScreenedOut);
    assert_eq!(answer.reply.body, br#"{"error":"x402 payment did not verify"}"#);
}

#[test]
fn allowed_signer_passes_through_to_search() {
    let screener = RestrictedAddressScreener::new("listed".to_string());
    let mut world = outside(VALID, 200, SETTLED);
    let answer = world.run(handle(&CLIENT, Some(&screener), &paid_by("0x11"), web_search()));
    assert_eq!(world.calls, ["screen", "verify", "search", "settle"]);
    assert_eq!(answer.reply.status, 200);
}

#[test]
fn unscreenable_signer_returns_503() {
    let screener = RestrictedAddressScreener::new("listed".to_string());
    let mut world = outside(VALID, 200, SETTLED);
    world.screening = HeadAnswer::Failed;
    let answer = world.run(handle(&CLIENT, Some(&screener), &paid_by("0x22"), web_search()));
    assert_eq!(world.calls, ["screen"]);
    assert_eq!(answer.reply.status, 503);
    assert_eq!(answer.outcome, Outcome::ScreenUnavailable);
}

#[test]
fn a_payload_without_a_payer_is_refused_when_screening_is_on() {
    let offers = accepts(SEARCH_RATE, true);
    let headers = payment_headers(&payload(&offers[0], "{}"));
    let screener = RestrictedAddressScreener::new("listed".to_string());
    let mut world = outside(VALID, 200, SETTLED);
    let answer = world.run(handle(&CLIENT, Some(&screener), &headers, web_search()));
    assert!(world.calls.is_empty());
    assert_eq!(answer.reply.status, 402);
    // Without a screener there is nothing to tell the payer for.
    let mut world = outside(VALID, 200, SETTLED);
    let answer = world.run(handle(&CLIENT, None, &headers, web_search()));
    assert_eq!(answer.reply.status, 200);
}

#[test]
fn the_flow_goes_on_plain_answers_alike() {
    let order = || match handle(&CLIENT, None, &paid_by("0xAB"), web_search()) {
        Step::Verify(order) => order,
        _ => panic!("the payment is verified first"),
    };
    assert!(matches!(judged(order(), Some(true)), Step::Search(_)));
    assert!(matches!(
        judged(order(), Some(false)),
        Step::Done(answer) if answer.outcome == Outcome::Refused
    ));
    assert!(matches!(
        judged(order(), None),
        Step::Done(answer) if answer.outcome == Outcome::NetworkUnavailable
    ));
    assert!(matches!(
        receipted(order(), ok_reply("{}"), Some("e30=".to_string())),
        Step::Done(answer) if answer.outcome == Outcome::Settled
            && answer.reply.headers.text("Payment-Response").as_deref() == Some("e30=")
    ));
    assert!(matches!(
        receipted(order(), ok_reply("{}"), None),
        Step::Done(answer) if answer.outcome == Outcome::SettleFailed
    ));
}

#[test]
fn a_receipt_replaces_one_that_was_there() {
    let mut reply = ok_reply("{}");
    reply.headers.append("Payment-Response", "old");
    reply.headers.append("x-other", "kept");
    let receipted = attach_receipt(reply, "eyJzdWNjZXNzIjp0cnVlfQ==");
    assert_eq!(
        receipted.headers.text("payment-response").as_deref(),
        Some("eyJzdWNjZXNzIjp0cnVlfQ==")
    );
    assert_eq!(receipted.headers.text("x-other").as_deref(), Some("kept"));
    assert_eq!(receipted.headers.entries.len(), 2);
}
