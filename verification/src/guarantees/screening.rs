//! What screening guarantees: which key is looked up, and who is let through.

use vstd::prelude::*;
use vstd::utf8::*;

use crate::config::Config;
use crate::guarantees::replies::{lemma_one_header, same_reply};
use crate::guarantees::x402_rail::refuses;
use crate::http::Reply;
use crate::payment::{Answer, Outcome};
use crate::screener::{
    base64url, head_key, init, init_with, require_allowed, HeadAnswer, Init, Lookup,
    RestrictedAddressScreener, ScreenError, Screening, Status,
};

verus! {

/// An identifier is looked up exactly as given, in the screener's own bucket.
pub proof fn an_identifier_is_looked_up_as_given(
    screener: &RestrictedAddressScreener,
    identifier: &str,
    lookup: Lookup,
)
    requires
        call_ensures(RestrictedAddressScreener::screen, (screener, identifier), lookup),
    ensures
        lookup.bucket@ == screener.bucket@,
        lookup.key@ == base64url(encode_utf8(identifier@)),
{
}

/// Different identifiers have different keys, so screening one payer never answers for
/// another, and two casings of one address are two identifiers.
pub proof fn identifiers_are_told_apart(
    screener: &RestrictedAddressScreener,
    first: &str,
    second: &str,
    first_lookup: Lookup,
    second_lookup: Lookup,
)
    requires
        call_ensures(RestrictedAddressScreener::screen, (screener, first), first_lookup),
        call_ensures(RestrictedAddressScreener::screen, (screener, second), second_lookup),
    ensures
        first_lookup.key@ == second_lookup.key@ <==> first@ == second@,
{
    assert(crate::screener::key_of(second@) == second_lookup.key@);
}

/// A screener is of the bucket it was made with.
pub proof fn a_screener_has_its_bucket(bucket: String, screener: RestrictedAddressScreener)
    requires
        call_ensures(RestrictedAddressScreener::new, (bucket,), screener),
    ensures
        screener.bucket@ == bucket@,
{
}

/// Whatever the answer, only a key that is known to be absent lets a payment through: a key
/// that is there gets the rail's own refusal, and every failure a `503`.
pub proof fn only_an_absent_key_lets_through(
    answer: HeadAnswer,
    screened: Result<Screening, ScreenError>,
    refusal: Reply,
    allowed: Result<(), Answer>,
)
    requires
        call_ensures(head_key, (answer,), screened),
        call_ensures(require_allowed, (screened, refusal), allowed),
    ensures
        allowed is Ok <==> answer == HeadAnswer::NotFound,
        answer == HeadAnswer::Found ==> {
            &&& allowed matches Err(denied)
            &&& same_reply(denied.reply, refusal)
            &&& denied.charged is None
            &&& denied.outcome == Outcome::ScreenedOut
        },
        answer == HeadAnswer::Failed ==> {
            &&& allowed matches Err(denied)
            &&& refuses(
                denied,
                503,
                "address screening unavailable"@,
                Outcome::ScreenUnavailable,
            )
        },
        screened == Ok::<Screening, ScreenError>(Screening::Allowed) <==> answer
            == HeadAnswer::NotFound,
        screened == Ok::<Screening, ScreenError>(Screening::Blocked) <==> answer
            == HeadAnswer::Found,
{
    if answer == HeadAnswer::Failed {
        lemma_one_header(
            allowed->Err_0.reply,
            "content-type"@,
            encode_utf8("application/json"@),
        );
    }
}

/// Screening is off exactly where no bucket is configured; otherwise the configured bucket
/// is probed.
pub proof fn screening_is_on_where_a_bucket_is_configured(config: &Config, start: Init)
    requires
        call_ensures(init, (config,), start),
    ensures
        match config.restricted_address_s3_bucket {
            None => start matches Init::Off(status) && status is Disabled,
            Some(bucket) => start matches Init::Probe(lookup) && lookup.bucket@ == bucket@
                && lookup.key@ == "bx402.canary"@,
        },
{
}

/// Startup goes on exactly where the bucket could be reached, with a screener of that bucket.
pub proof fn startup_needs_a_reachable_bucket(
    bucket: String,
    answer: HeadAnswer,
    started: Result<(RestrictedAddressScreener, Status), String>,
)
    requires
        call_ensures(init_with, (bucket, answer), started),
    ensures
        started is Err <==> answer == HeadAnswer::Failed,
        match started {
            Ok((screener, status)) => screener.bucket@ == bucket@ && status is Enabled
                && status->bucket@ == bucket@,
            Err(message) => message@ == "restricted address screening probe failed for bucket "@
                + bucket@,
        },
{
}

/// The startup log tells whether screening is on, and against which bucket.
pub proof fn the_log_tells_the_bucket(status: &Status, line: String)
    requires
        call_ensures(Status::describe, (status,), line),
    ensures
        match *status {
            Status::Enabled { bucket } => line@ == "✓ enabled (bucket="@ + bucket@ + ")"@,
            Status::Disabled => line@ == "✗ disabled (RESTRICTED_ADDRESS_S3_BUCKET not set)"@,
        },
{
}

} // verus!
