//! Screening: keys, answers, and startup.

use base64::engine::general_purpose::URL_SAFE_NO_PAD;
use base64::Engine;
use bx402::http::Reply;
use bx402::payment::Outcome;
use bx402::screener::{
    head_key, init_with, require_allowed, HeadAnswer, Init, RestrictedAddressScreener, ScreenError,
    Screening, Status, CANARY_KEY,
};
use bx402::{init_screener, Config};

const BUCKET: &str = "restricted-address-bucket";

#[test]
fn present_key_is_blocked() {
    assert_eq!(head_key(HeadAnswer::Found), Ok(Screening::Blocked));
}

#[test]
fn absent_key_is_allowed() {
    assert_eq!(head_key(HeadAnswer::NotFound), Ok(Screening::Allowed));
}

#[test]
fn server_error_denies() {
    assert_eq!(head_key(HeadAnswer::Failed), Err(ScreenError));
    let denied = require_allowed(Err(ScreenError), Reply::bare(402))
        .err()
        .expect("an unscreened payer is denied");
    assert_eq!(denied.reply.status, 503);
    assert_eq!(denied.outcome, Outcome::ScreenUnavailable);
}

#[test]
fn only_an_absent_key_lets_a_payment_through() {
    assert!(require_allowed(Ok(Screening::Allowed), Reply::bare(402)).is_ok());
    let denied = require_allowed(Ok(Screening::Blocked), Reply::bare(402))
        .err()
        .expect("a listed payer is denied");
    assert_eq!(denied.reply.status, 402);
    assert_eq!(denied.outcome, Outcome::ScreenedOut);
    assert_eq!(denied.charged, None);
}

/// The screener never changes the casing of an identifier. Casing is the caller's job. So
/// two casings of one address are two different keys.
#[test]
fn screens_the_identifier_verbatim() {
    let stored = "0xAb5801a7D398351b8bE11C439e05C5B3259aeC9B";
    let other_casing = stored.to_ascii_lowercase();
    let screener = RestrictedAddressScreener::new(BUCKET.to_string());
    let lookup = screener.screen(stored);
    assert_eq!(lookup.bucket, BUCKET);
    assert_eq!(lookup.key, URL_SAFE_NO_PAD.encode(stored.as_bytes()));
    assert_eq!(
        lookup.key,
        "MHhBYjU4MDFhN0QzOTgzNTFiOGJFMTFDNDM5ZTA1QzVCMzI1OWFlQzlC"
    );
    assert_ne!(lookup.key, screener.screen(&other_casing).key);
}

#[test]
fn init_disabled_when_bucket_unset() {
    match init_screener(&Config::for_tests()) {
        Init::Off(status) => assert!(matches!(status, Status::Disabled)),
        Init::Probe(_) => panic!("there is no bucket to probe"),
    }
}

#[test]
fn init_probes_the_canary_when_a_bucket_is_set() {
    let config = Config {
        restricted_address_s3_bucket: Some(BUCKET.to_string()),
        ..Config::for_tests()
    };
    match init_screener(&config) {
        Init::Off(_) => panic!("the bucket must be probed"),
        Init::Probe(lookup) => {
            assert_eq!(lookup.bucket, BUCKET);
            assert_eq!(lookup.key, CANARY_KEY);
            assert_eq!(lookup.key, "bx402.canary");
        }
    }
}

#[test]
fn init_enabled_when_bucket_reachable() {
    let (screener, status) = init_with(BUCKET.to_string(), HeadAnswer::NotFound).unwrap();
    assert_eq!(screener.bucket, BUCKET);
    assert!(matches!(status, Status::Enabled { bucket } if bucket == BUCKET));
}

#[test]
fn init_enabled_when_canary_present() {
    assert!(init_with(BUCKET.to_string(), HeadAnswer::Found).is_ok());
}

#[test]
fn init_fails_fast_on_probe_error() {
    let err = init_with(BUCKET.to_string(), HeadAnswer::Failed).unwrap_err();
    assert_eq!(
        err,
        "restricted address screening probe failed for bucket restricted-address-bucket"
    );
}

#[test]
fn status_display_reads_clearly() {
    let enabled = Status::Enabled {
        bucket: "restricted-address-bucket".to_string(),
    };
    assert_eq!(
        enabled.describe(),
        "✓ enabled (bucket=restricted-address-bucket)"
    );
    assert_eq!(
        Status::Disabled.describe(),
        "✗ disabled (RESTRICTED_ADDRESS_S3_BUCKET not set)"
    );
}
