//! The MPP rail: the chain, credentials, receipts, and the pay flow.

use alloy_primitives::{hex, Address, Bytes, Signature, TxKind, U256};
use bx402::endpoints::{find, Endpoint, SEARCH_RATE, UTILITY_RATE};
use bx402::http::{Headers, Reply};
use bx402::metrics::{Metrics, PaymentRail};
use bx402::mpp_rail::{
    attach_receipt, chain_query, charged, client, credential, get_chain_id, handle, invalid_rpc_url,
    parse_chain_id, read_challenge, read_receipt, screened, searched, signer_address, transaction_payload, ChargeFailure,
    ChargePayload, Client, Step, CHALLENGE_MINUTES, TempoNetwork, MODERATO_CHAIN_ID, PAYMENT_RECEIPT_HEADER,
    PAY_TO_EVM, REALM, TEMPO_CHAIN_ID,
};
use bx402::payment::{Answer, Outcome};
use bx402::recording::{record_answer, record_call};
use bx402::screener::{HeadAnswer, RestrictedAddressScreener};
use bx402::{AppError, Config};
use k256::ecdsa::SigningKey;
use mpp::{
    format_authorization, Base64UrlJson, ChallengeEcho, ChargeRequest, PaymentCredential, PaymentPayload, Receipt,
};
use serde_json::Value;
use tempo_primitives::transaction::{AASigned, Call, TempoSignature};
use tempo_primitives::TempoTransaction;

fn moderato() -> Client {
    served(MODERATO_CHAIN_ID, true).ok().expect("the test chain is served")
}

/// The rail of the test config on `chain`.
fn served(chain: u64, allow_testnet: bool) -> Result<Client, AppError> {
    client(Config::for_tests().mpp_rail(), chain, allow_testnet)
}

fn json(text: &str) -> Value {
    serde_json::from_str(text).expect("the test writes JSON")
}

fn web_search() -> Endpoint {
    find("/res/v1/web/search").expect("web search is sold")
}

/// A minimal challenge echo; the payload gate reads only the payload beside it.
fn echo() -> ChallengeEcho {
    ChallengeEcho {
        id: "id".into(),
        realm: REALM.into(),
        method: "tempo".into(),
        intent: "charge".into(),
        request: Base64UrlJson::from_raw("e30"),
        expires: None,
        digest: None,
        opaque: None,
    }
}

/// Headers with a credential that pays with `payload`.
fn paying_with(payload: Value) -> Headers {
    let credential = PaymentCredential::new(echo(), payload);
    let mut headers = Headers::new();
    let value = format_authorization(&credential).expect("the credential formats");
    headers.append("Authorization", &value);
    headers
}

fn value_of(payload: PaymentPayload) -> Value {
    serde_json::to_value(payload).expect("a payload is JSON")
}

/// A minimal signed Tempo transaction from a fixed test key, as
/// `(transaction hex, signer address)`. The transfer is not a valid charge; it only has to
/// decode and carry a real signature.
fn forged_transaction() -> (String, String) {
    let key = SigningKey::from_slice(&[1u8; 32]).expect("the fixed test key is a valid scalar");
    // Recipient, chain, and gas are arbitrary: the transfer never verifies.
    let tx = TempoTransaction {
        chain_id: 42431,
        gas_limit: 100_000,
        calls: vec![Call {
            to: TxKind::Call(Address::repeat_byte(0x42)),
            value: U256::ZERO,
            input: Bytes::new(),
        }],
        ..Default::default()
    };
    // The signature hash covers only the transaction fields, so a placeholder signature is
    // enough to compute it.
    let placeholder = TempoSignature::from(Signature::new(U256::from(1), U256::from(1), false));
    let sig_hash = AASigned::new_unhashed(tx.clone(), placeholder).signature_hash();
    let (signed, recovery) = key
        .sign_prehash_recoverable(sig_hash.as_slice())
        .expect("signing succeeds");
    let signature = Signature::new(
        U256::from_be_slice(&signed.r().to_bytes()),
        U256::from_be_slice(&signed.s().to_bytes()),
        recovery.is_y_odd(),
    );
    let signed = AASigned::new_unhashed(tx, TempoSignature::from(signature));
    let mut encoded = Vec::new();
    signed.eip2718_encode(&mut encoded);
    let public = key.verifying_key().to_encoded_point(false);
    let address = Address::from_raw_public_key(&public.as_bytes()[1..]);
    (hex::encode_prefixed(encoded), format!("{address:#x}"))
}

fn transaction_headers() -> (Headers, String) {
    let (tx, signer) = forged_transaction();
    (paying_with(value_of(PaymentPayload::transaction(tx))), signer)
}

/// Run the flow with these answers; returns what was asked and what came out.
fn run(
    first: Step,
    screening: HeadAnswer,
    charge: Result<(), ChargeFailure>,
    search: u16,
) -> (Vec<&'static str>, Answer) {
    run_recorded(&mut Metrics::new(), first, screening, charge, search)
}

/// [`run`], recording what is recorded of it.
fn run_recorded(
    metrics: &mut Metrics,
    first: Step,
    screening: HeadAnswer,
    charge: Result<(), ChargeFailure>,
    search: u16,
) -> (Vec<&'static str>, Answer) {
    let mut calls = Vec::new();
    let mut step = first;
    loop {
        record_call(metrics, PaymentRail::Mpp, step.payment_step(), 1_000);
        step = match step {
            Step::Screen(order, _) => {
                calls.push("screen");
                screened(&moderato(), order, screening)
            }
            Step::Charge(order, charge_request) => {
                calls.push("charge");
                assert_eq!(charge_request.amount, "5000");
                assert_eq!(charge_request.chain_id, MODERATO_CHAIN_ID);
                let result = charge.map(|()| Receipt::success("tempo", "0xtxhash"));
                charged(order, result)
            }
            Step::Search(order, receipt) => {
                calls.push("search");
                let mut reply = Reply::bare(search);
                reply.body = b"{}".to_vec();
                searched(order, receipt, reply)
            }
            Step::Done(answer) => {
                record_answer(metrics, PaymentRail::Mpp, &web_search(), &answer);
                return (calls, answer);
            }
        }
    }
}

/// Whether exactly one payment for web search ended in `outcome`.
fn assert_payment_outcome(metrics: &Metrics, outcome: &str) {
    let rendered = metrics.render().unwrap();
    let series = format!(
        "bx402_payments_total{{rail=\"mpp\",endpoint=\"/res/v1/web/search\",outcome=\"{outcome}\"}} 1\n"
    );
    assert!(rendered.contains(&series), "missing `{series}` in:\n{rendered}");
}

#[test]
fn a_testnet_chain_requires_the_testnet_flag() {
    let Err(err) = served(MODERATO_CHAIN_ID, false) else {
        panic!("a testnet chain must be refused when testnets are off");
    };
    assert_eq!(
        err.message(),
        "invalid configuration: MPP_RPC_URL: chain 42431 is a testnet; set ALLOW_TESTNET=true to accept it"
    );

    // Mainnet needs no flag.
    assert!(served(TEMPO_CHAIN_ID, false).is_ok());
    assert!(served(MODERATO_CHAIN_ID, true).is_ok());
    assert_eq!(
        TempoNetwork::from_chain_id(4217),
        Some(TempoNetwork::Mainnet)
    );
}

#[test]
fn the_charge_follows_the_chain_and_pins_the_price() {
    for chain in [MODERATO_CHAIN_ID, TEMPO_CHAIN_ID] {
        let request = served(chain, true).ok().unwrap().charge(SEARCH_RATE);
        assert_eq!(request.amount, "5000", "{chain}");
        assert_eq!(
            request.currency, "0x20c0000000000000000000000000000000000000",
            "{chain}"
        );
        assert_eq!(request.recipient, PAY_TO_EVM, "{chain}");
        assert_eq!(request.chain_id, chain);
    }
    assert_eq!(moderato().charge(UTILITY_RATE).amount, "500");
    assert_eq!(moderato().charge(u64::MAX).amount, u64::MAX.to_string());

    // Any other chain is refused rather than served with a default token.
    assert!(matches!(served(1, true), Err(AppError::InvalidConfig(_))));
    assert_eq!(
        served(1, true).err().unwrap().message(),
        "invalid configuration: MPP: unsupported Tempo chain 1"
    );
}

#[test]
fn an_answer_without_a_chain_id_is_refused() {
    // An endpoint that answers without a chain id is refused with what it said.
    for body in ["{\"error\":{}}", "{\"result\":7}", "{\"result\":\"a5bf\"}", "null"] {
        let err = get_chain_id(&json(body)).unwrap_err();
        assert_eq!(
            err.message(),
            format!("invalid configuration: MPP_RPC_URL: eth_chainId returned no chain id: {body}")
        );
    }
    assert_eq!(get_chain_id(&json("{\"result\":\"0xa5bf\"}")).unwrap(), 42431);
    assert_eq!(
        invalid_rpc_url("eth_chainId query failed: x").message(),
        "invalid configuration: MPP_RPC_URL: eth_chainId query failed: x"
    );
    assert_eq!(
        chain_query(),
        r#"{"jsonrpc":"2.0","id":1,"method":"eth_chainId","params":[]}"#
    );
}

#[test]
fn chain_ids_are_read_as_hexadecimal() {
    let cases = [
        ("0x1079", Some(4217)),
        ("0xA5bF", Some(42431)),
        ("0x0", Some(0)),
        ("0x+a", Some(10)),
        ("0xffffffffffffffff", Some(u64::MAX)),
        ("0x0000ffffffffffffffff", Some(u64::MAX)),
        ("0x10000000000000000", None),
        ("0x", None),
        ("0x+", None),
        ("0x-1", None),
        ("0X1", None),
        ("1", None),
        ("0xg", None),
        ("", None),
    ];
    for (text, expected) in cases {
        assert_eq!(parse_chain_id(text), expected, "text: {text}");
        let std = text
            .strip_prefix("0x")
            .and_then(|hex| u64::from_str_radix(hex, 16).ok());
        assert_eq!(parse_chain_id(text), std, "text: {text}");
    }
}

#[test]
fn only_a_signed_transaction_payload_pays() {
    let cases = [
        (
            "transaction",
            value_of(PaymentPayload::transaction("0xsigned")),
            true,
        ),
        ("hash", value_of(PaymentPayload::hash("0xhash")), false),
        ("proof", value_of(PaymentPayload::proof("0xsig")), false),
        ("arbitrary json", json("{\"type\":\"mystery\"}"), false),
    ];
    for (name, payload, expected) in cases {
        let first = handle(&moderato(), None, &paying_with(payload), web_search());
        assert_eq!(
            matches!(&first, Step::Charge(..)),
            expected,
            "case: {name}"
        );
        if !expected {
            let (calls, answer) = run(first, HeadAnswer::NotFound, Ok(()), 200);
            assert!(calls.is_empty());
            assert_eq!(answer.outcome, Outcome::Unsupported, "case: {name}");
        }
    }
    assert_eq!(
        transaction_payload(&ChargePayload::Transaction("0xsigned".to_string())),
        Some(&"0xsigned".to_string())
    );
    assert!(transaction_payload(&ChargePayload::Hash("0xhash".to_string())).is_none());
    assert!(transaction_payload(&ChargePayload::Proof("0xsig".to_string())).is_none());
}

#[test]
fn attached_receipt_parses_back_from_the_header() {
    let receipt = Receipt::success("tempo", "0xtxhash");
    let response = attach_receipt(Reply::bare(200), &receipt);
    let header = response
        .headers
        .text(PAYMENT_RECEIPT_HEADER)
        .expect("the receipt header is attached");
    let parsed = Receipt::from_header(&header).expect("the header parses back");
    assert!(parsed.is_success());
    assert_eq!(parsed.reference, "0xtxhash");
}

#[test]
fn a_receipt_reads_back_from_its_header() {
    let receipt = Receipt::success("tempo", "0xtxhash");
    let timestamp = receipt.timestamp.clone();
    let response = attach_receipt(Reply::bare(200), &receipt);
    let header = response.headers.text(PAYMENT_RECEIPT_HEADER).unwrap();
    let read = read_receipt(&header).expect("the header holds a receipt");
    assert_eq!(read.reference, "0xtxhash");
    assert_eq!(read.timestamp, timestamp);
    assert_eq!(read.method.as_str(), "tempo");
    assert!(read_receipt("not a receipt").is_none());
}

#[test]
fn a_receipt_reads_back_with_what_a_method_adds() {
    let mut receipt = Receipt::success("tempo", "0xtxhash")
        .with_external_id("order-7")
        .with_subscription_id("sub_123");
    for (name, value) in [("nested", "{\"b\":[1,-2.5,null],\"a\":\"\u{e9}\"}"), ("also", "true")] {
        receipt.extensions.insert(name.to_string(), json(value));
    }
    let response = attach_receipt(Reply::bare(200), &receipt);
    let header = response.headers.text(PAYMENT_RECEIPT_HEADER).unwrap();
    let read = read_receipt(&header).expect("the header holds a receipt");
    assert_eq!(
        serde_json::to_string(&read).unwrap(),
        serde_json::to_string(&receipt).unwrap()
    );
    assert_eq!(read.external_id.as_deref(), Some("order-7"));
    assert_eq!(read.subscription_id.as_deref(), Some("sub_123"));
    assert_eq!(read.extensions, receipt.extensions);
}

#[test]
fn challenge_advertises_the_charge_credentials_answer() {
    let client = moderato();
    let expires = mpp::expires::minutes(CHALLENGE_MINUTES);
    let value = client
        .challenge(SEARCH_RATE, &expires)
        .expect("the challenge builds");
    // The header parses back to a signed, expiring challenge for the same charge a
    // credential is verified against.
    let parsed = mpp::parse_www_authenticate(&value).unwrap();
    assert_eq!(parsed.realm, REALM);
    assert!(!parsed.id.is_empty());
    assert!(parsed.expires.is_some());
    assert!(parsed.verify("test-secret"));
    assert_eq!(parsed.method.as_str(), "tempo");
    assert_eq!(parsed.intent.as_str(), "charge");
    let expected = client.charge(SEARCH_RATE);
    let advertised: ChargeRequest = parsed.request.decode().unwrap();
    assert_eq!(advertised.amount, expected.amount);
    assert_eq!(advertised.currency, expected.currency);
    assert_eq!(advertised.recipient, Some(expected.recipient));
    assert_eq!(
        advertised.method_details,
        Some(json(&format!("{{\"chainId\":{}}}", expected.chain_id)))
    );
    let read = read_challenge(&value).expect("the challenge reads back");
    assert_eq!(read.id, parsed.id);
    assert_eq!(read.realm, "bx402");
    assert_eq!(read.method, "tempo");
    assert_eq!(read.intent, "charge");
    assert_eq!(read.expires.as_deref(), Some(expires.as_str()));
    assert_eq!(
        read.request.to_string(),
        format!(
            "{{\"amount\":\"5000\",\"currency\":\"0x20c0000000000000000000000000000000000000\",\"methodDetails\":{{\"chainId\":42431}},\"recipient\":\"{PAY_TO_EVM}\"}}"
        )
    );
}

#[test]
fn a_challenge_is_refused_only_for_a_line_break() {
    let client = moderato();
    assert!(client.challenge(SEARCH_RATE, "a\nb").is_none());
    assert!(client.challenge(SEARCH_RATE, "a\rb").is_none());
    // A time that is none is sent, and not read back.
    let value = client.challenge(SEARCH_RATE, "soon").unwrap();
    assert!(value.starts_with("Payment "));
    assert!(read_challenge(&value).is_none());
    for time in ["0000-02-29T00:00:00Z", "2030-12-31T23:59:59.123456789Z"] {
        let value = client.challenge(u64::MAX, time).unwrap();
        assert!(read_challenge(&value).is_some(), "time: {time}");
    }
    assert!(read_challenge("Bearer x").is_none());
}

#[test]
fn signer_recovery_matches_the_signing_key() {
    // The signer is recovered from the transaction alone, so it must be exactly the key that
    // signed it.
    let (tx, signer) = forged_transaction();
    assert_eq!(
        signer_address(&ChargePayload::Transaction(tx.clone())).as_deref(),
        Some(signer.as_str())
    );
    // The type byte may be left out.
    let untyped = format!("0x{}", &tx[4..]);
    assert_eq!(
        signer_address(&ChargePayload::Transaction(untyped)).as_deref(),
        Some(signer.as_str())
    );
}

#[test]
fn signer_recovery_requires_a_decodable_signed_transaction() {
    let cases = [
        ("garbage hex", ChargePayload::Transaction("0xno".to_string())),
        ("not hex at all", ChargePayload::Transaction("zzz".to_string())),
        ("odd hex", ChargePayload::Transaction("0x123".to_string())),
        ("empty", ChargePayload::Transaction("".to_string())),
        ("hash payload", ChargePayload::Hash("0xdeadbeef".to_string())),
    ];
    for (name, payload) in cases {
        assert!(signer_address(&payload).is_none(), "case: {name}");
    }
}

#[test]
fn credential_requires_the_payment_scheme() {
    let cases = [
        ("bearer token", "Bearer abc123"),
        ("payment but not a credential", "Payment not-base64-json"),
        ("empty", ""),
    ];
    for (name, value) in cases {
        let mut headers = Headers::new();
        headers.append("authorization", value);
        assert!(credential(&headers).is_none(), "case: {name}");
    }
    assert!(credential(&Headers::new()).is_none());
    let (headers, _) = transaction_headers();
    assert!(credential(&headers).is_some());
}

#[test]
fn mpp_hash_credential_is_refused_before_any_search() {
    let headers = paying_with(value_of(PaymentPayload::hash("0xdeadbeef")));
    let first = handle(&moderato(), None, &headers, web_search());
    let (calls, answer) = run(first, HeadAnswer::NotFound, Ok(()), 200);
    assert!(calls.is_empty());
    assert_eq!(answer.reply.status, 402);
    assert_eq!(answer.reply.body, br#"{"error":"mpp payment did not verify"}"#);
}

#[test]
fn mpp_unreachable_tempo_rpc_is_a_gateway_error() {
    let (headers, _) = transaction_headers();
    let first = handle(&moderato(), None, &headers, web_search());
    let (calls, answer) = run(
        first,
        HeadAnswer::NotFound,
        Err(ChargeFailure::Unreachable),
        200,
    );
    assert_eq!(calls, ["charge"]);
    assert_eq!(answer.reply.status, 502);
    assert_eq!(answer.outcome, Outcome::NetworkUnavailable);
    assert_eq!(answer.reply.body, br#"{"error":"payment network unavailable"}"#);
}

#[test]
fn mpp_blocked_signer_never_reaches_tempo_or_the_search() {
    // The restricted list holds exactly the address that signed the transaction.
    let (headers, signer) = transaction_headers();
    let screener = RestrictedAddressScreener::new("listed".to_string());
    let first = handle(&moderato(), Some(&screener), &headers, web_search());
    match &first {
        Step::Screen(_, lookup) => assert_eq!(lookup.key, screener.screen(&signer).key),
        _ => panic!("the signer is screened first"),
    }
    let (calls, answer) = run(first, HeadAnswer::Found, Ok(()), 200);
    assert_eq!(calls, ["screen"]);
    assert_eq!(answer.reply.status, 402);
    assert_eq!(answer.outcome, Outcome::ScreenedOut);
    assert_eq!(answer.reply.body, br#"{"error":"mpp payment did not verify"}"#);
}

#[test]
fn mpp_refusals_record_their_own_outcomes() {
    let mut metrics = Metrics::new();
    let mut headers = Headers::new();
    headers.append("authorization", "Payment not-a-credential");
    let first = handle(&moderato(), None, &headers, web_search());
    let (_, answer) = run_recorded(&mut metrics, first, HeadAnswer::NotFound, Ok(()), 200);
    assert_eq!(answer.reply.status, 402);
    assert_eq!(answer.outcome, Outcome::Malformed);
    assert_payment_outcome(&metrics, "malformed");

    let headers = paying_with(value_of(PaymentPayload::hash("0xdeadbeef")));
    let first = handle(&moderato(), None, &headers, web_search());
    let (_, answer) = run_recorded(&mut metrics, first, HeadAnswer::NotFound, Ok(()), 200);
    assert_eq!(answer.reply.status, 402);
    assert_eq!(answer.outcome, Outcome::Unsupported);
    assert_payment_outcome(&metrics, "unsupported");

    let (headers, _) = transaction_headers();
    let first = handle(&moderato(), None, &headers, web_search());
    let (calls, answer) = run(first, HeadAnswer::NotFound, Err(ChargeFailure::Rejected), 200);
    assert_eq!(calls, ["charge"]);
    assert_eq!(answer.reply.status, 402);
    assert_eq!(answer.outcome, Outcome::Refused);

    // A transaction whose signer cannot be recovered is refused when screening is on.
    let headers = paying_with(value_of(PaymentPayload::transaction("0xno")));
    let screener = RestrictedAddressScreener::new("listed".to_string());
    let first = handle(&moderato(), Some(&screener), &headers, web_search());
    let (calls, answer) = run(first, HeadAnswer::NotFound, Ok(()), 200);
    assert!(calls.is_empty());
    assert_eq!(answer.outcome, Outcome::ScreenedOut);
}

#[test]
fn an_unreachable_tempo_rpc_records_the_charge_it_attempted() {
    let mut metrics = Metrics::new();
    let (headers, _) = transaction_headers();
    let first = handle(&moderato(), None, &headers, web_search());
    let (_, answer) = run_recorded(
        &mut metrics,
        first,
        HeadAnswer::NotFound,
        Err(ChargeFailure::Unreachable),
        200,
    );
    assert_eq!(answer.reply.status, 502);
    assert_payment_outcome(&metrics, "network_unavailable");

    // The charge is timed even when it fails, so a slow chain and an unreachable one are
    // both visible.
    let rendered = metrics.render().unwrap();
    assert!(rendered.contains(
        r#"bx402_payment_step_duration_seconds_count{rail="mpp",step="charge"} 1"#
    ));
    assert!(!rendered.contains("bx402_charged_base_units_total{"));
}

#[test]
fn a_blocked_mpp_signer_records_a_screened_out_payment() {
    let mut metrics = Metrics::new();
    let (headers, _) = transaction_headers();
    let screener = RestrictedAddressScreener::new("listed".to_string());
    let first = handle(&moderato(), Some(&screener), &headers, web_search());
    let (_, answer) = run_recorded(&mut metrics, first, HeadAnswer::Found, Ok(()), 200);
    assert_eq!(answer.reply.status, 402);
    assert_payment_outcome(&metrics, "screened_out");
    // Refused before the charge, so nothing was attempted on chain.
    assert!(!metrics.render().unwrap().contains(r#"step="charge""#));
}

#[test]
fn a_settled_mpp_payment_records_what_it_charged() {
    let mut metrics = Metrics::new();
    let (headers, _) = transaction_headers();
    let first = handle(&moderato(), None, &headers, web_search());
    run_recorded(&mut metrics, first, HeadAnswer::NotFound, Ok(()), 500);
    assert_payment_outcome(&metrics, "settled");
    assert!(metrics.render().unwrap().contains(
        r#"bx402_charged_base_units_total{rail="mpp",endpoint="/res/v1/web/search"} 5000"#
    ));
}

#[test]
fn the_receipt_rides_on_whatever_the_search_returned() {
    for status in [200, 404, 500, 502] {
        let (headers, _) = transaction_headers();
        let screener = RestrictedAddressScreener::new("listed".to_string());
        let first = handle(&moderato(), Some(&screener), &headers, web_search());
        let (calls, answer) = run(first, HeadAnswer::NotFound, Ok(()), status);
        assert_eq!(calls, ["screen", "charge", "search"]);
        assert_eq!(answer.reply.status, status);
        assert_eq!(answer.reply.body, b"{}");
        assert_eq!(answer.outcome, Outcome::Settled);
        assert_eq!(answer.charged, Some(5000));
        let header = answer
            .reply
            .headers
            .text("payment-receipt")
            .expect("the client paid and gets their proof");
        assert_eq!(Receipt::from_header(&header).unwrap().reference, "0xtxhash");
    }
}

#[test]
fn an_unscreenable_mpp_signer_is_not_charged() {
    let (headers, _) = transaction_headers();
    let screener = RestrictedAddressScreener::new("listed".to_string());
    let first = handle(&moderato(), Some(&screener), &headers, web_search());
    let (calls, answer) = run(first, HeadAnswer::Failed, Ok(()), 200);
    assert_eq!(calls, ["screen"]);
    assert_eq!(answer.reply.status, 503);
}
