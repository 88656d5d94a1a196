//! Screens payers against a list of restricted addresses.
//!
//! The list is an S3 bucket. Each prohibited address is stored as a key, base64url
//! encoded. Checking membership is one `HeadObject`:
//!
//! - key present (`200`): on the list
//! - key absent (`404`): not on the list
//!
//! The screener errs on the side of caution. Only a `404` means "not on the list". Any
//! other error (timeout, misconfiguration, S3 outage) blocks the payment rather than
//! letting it through unchecked.
//!
//! The module is chain agnostic. It screens the identifier string exactly as given and
//! knows nothing about the address itself.
//!
//! Canonicalization belongs to the caller, because it differs per chain:
//!
//! - EVM: addresses are case-insensitive hex, so the rail lowercases.
//! - Solana: addresses are case-sensitive base58, so the rail passes them as is.

use base64::engine::general_purpose::URL_SAFE_NO_PAD;
use base64::Engine;
use vstd::prelude::*;
use vstd::string::*;
use vstd::utf8::*;

use crate::config::Config;
use crate::error::{error_reply, joined, json_error};
use crate::http::{Reply, ReplyView};
use crate::payment::{uncharged, Answer, AnswerView, Outcome};
use crate::text::lemma_encoding_tells_apart;

verus! {

/// Canary key used to probe the bucket at startup.
pub const CANARY_KEY: &'static str = "bx402.canary";

/// How many seconds a screen may take before it counts as unavailable. Bounds the paid
/// request path.
pub const SCREEN_TIMEOUT_SECONDS: u64 = 2;

/// How many seconds any one S3 call may take. A looser backstop for startup, where the
/// first call also resolves credentials.
pub const S3_TIMEOUT_SECONDS: u64 = 10;

/// What unpadded base64url encoding makes of bytes.
pub uninterp spec fn base64url(bytes: Seq<u8>) -> Seq<char>;

/// `URL_SAFE_NO_PAD.encode` of the `base64` crate. Claims that the text depends on the
/// bytes alone, and that no other bytes have this text: the encoding can be undone.
#[verifier::external_body]
fn encode_base64url(bytes: &[u8]) -> (text: String)
    ensures
        text@ == base64url(bytes@),
        forall|other: Seq<u8>| #[trigger] base64url(other) == text@ ==> other == bytes@,
{
    URL_SAFE_NO_PAD.encode(bytes)
}

/// Screens identifiers against the restricted-address S3 bucket.
#[derive(Debug)]
pub struct RestrictedAddressScreener {
    pub bucket: String,
}

/// One S3 key to look up with `HeadObject`.
#[derive(Debug)]
pub struct Lookup {
    pub bucket: String,
    pub key: String,
}

/// The mathematical value of a [`Lookup`].
#[verifier::ext_equal]
pub struct LookupView {
    pub bucket: Seq<char>,
    pub key: Seq<char>,
}

impl View for Lookup {
    type V = LookupView;

    open spec fn view(&self) -> LookupView {
        LookupView { bucket: self.bucket@, key: self.key@ }
    }
}

/// What S3 answered a `HeadObject`.
#[derive(Debug, Clone, Copy, PartialEq, Eq, Structural)]
pub enum HeadAnswer {
    /// `200`: the key is there.
    Found,
    /// `404 NotFound`: the key is not there.
    NotFound,
    /// Anything else: another status, a transport failure, or no answer in time.
    Failed,
}

/// The two definite answers a screen can give.
///
/// When the screener cannot give a definite answer, it returns [`ScreenError`] instead,
/// and the caller must still deny the payment.
#[derive(Debug, Clone, Copy, PartialEq, Eq, Structural)]
pub enum Screening {
    /// On the restricted list. Deny the payment.
    Blocked,
    /// Not on the list.
    Allowed,
}

/// The screen could not give a definite answer: a timeout, a misconfiguration,
/// `AccessDenied`, or any other S3 failure. The caller must treat this as a denial.
#[derive(Debug, Clone, Copy, PartialEq, Eq, Structural)]
pub struct ScreenError;

/// The key under which a listed identifier is stored: its bytes, exactly as given.
pub open spec fn key_of(identifier: Seq<char>) -> Seq<char> {
    base64url(encode_utf8(identifier))
}

/// What an answer means.
pub open spec fn meaning(answer: HeadAnswer) -> Result<Screening, ScreenError> {
    match answer {
        HeadAnswer::Found => Ok(Screening::Blocked),
        HeadAnswer::NotFound => Ok(Screening::Allowed),
        HeadAnswer::Failed => Err(ScreenError),
    }
}

/// How a payment is denied for what its payer's screen gave: a listed payer gets the
/// rail's refusal, one who could not be screened a `503`, and one who is not listed is
/// not denied.
pub open spec fn denial(
    screened: Result<Screening, ScreenError>,
    refusal: ReplyView,
) -> Option<AnswerView> {
    match screened {
        Ok(Screening::Allowed) => None,
        Ok(Screening::Blocked) => Some(uncharged(refusal, Outcome::ScreenedOut)),
        Err(_) => Some(
            uncharged(
                error_reply(503, "address screening unavailable"@),
                Outcome::ScreenUnavailable,
            ),
        ),
    }
}

/// Look at what S3 answered:
///
/// - `200`: key present, [`Screening::Blocked`]
/// - `404 NotFound`: key absent, [`Screening::Allowed`]
/// - anything else: [`ScreenError`], so the caller blocks
pub fn head_key(answer: HeadAnswer) -> (screened: Result<Screening, ScreenError>)
    ensures
        screened == meaning(answer),
{
    match answer {
        // Key exists, so the address is on the list.
        HeadAnswer::Found => Ok(Screening::Blocked),
        // A 404 is the only way to be allowed.
        HeadAnswer::NotFound => Ok(Screening::Allowed),
        // Any other failure blocks the payment.
        HeadAnswer::Failed => Err(ScreenError),
    }
}

/// Deny a payment unless its payer is known not to be listed.
pub fn require_allowed(
    screened: Result<Screening, ScreenError>,
    refusal: Reply,
) -> (allowed: Result<(), Answer>)
    ensures
        match allowed {
            Ok(_) => denial(screened, refusal@) is None,
            Err(denied) => denial(screened, refusal@) == Some(denied@),
        },
{
    match screened {
        Ok(Screening::Allowed) => Ok(()),
        Ok(Screening::Blocked) => Err(Answer::uncharged(refusal, Outcome::ScreenedOut)),
        Err(_) => Err(
            Answer::uncharged(
                json_error(503, "address screening unavailable"),
                Outcome::ScreenUnavailable,
            ),
        ),
    }
}

impl RestrictedAddressScreener {
    pub fn new(bucket: String) -> (screener: RestrictedAddressScreener)
        ensures
            screener.bucket == bucket,
    {
        RestrictedAddressScreener { bucket }
    }

    /// The lookup that screens one identifier, exactly as given.
    ///
    /// The caller must pass the already-canonical form (casing differs per chain; see the
    /// module docs). The identifier is base64url-encoded into the S3 key. No other
    /// identifier has that key, so screening one payer never answers for another.
    pub fn screen(&self, identifier: &str) -> (lookup: Lookup)
        ensures
            lookup@ == (LookupView { bucket: self.bucket@, key: key_of(identifier@) }),
            forall|other: Seq<char>| #[trigger]
                key_of(other) == lookup@.key ==> other == identifier@,
    {
        let key = encode_base64url(identifier.as_bytes());
        proof {
            assert forall|other: Seq<char>| #[trigger] key_of(other) == key@ implies other
                == identifier@ by {
                lemma_encoding_tells_apart(other, identifier@);
            }
        }
        Lookup { bucket: self.bucket.clone(), key }
    }
}

/// Outcome of [`init`], for the startup log line.
#[derive(Debug)]
pub enum Status {
    /// Screening is on, against this bucket.
    Enabled { bucket: String },
    /// Screening is off because no bucket is configured.
    Disabled,
}

/// The startup log line for a status.
pub open spec fn status_line(status: Status) -> Seq<char> {
    match status {
        Status::Enabled { bucket } => "✓ enabled (bucket="@ + bucket@ + ")"@,
        Status::Disabled => "✗ disabled (RESTRICTED_ADDRESS_S3_BUCKET not set)"@,
    }
}

impl Status {
    /// The status as the startup log tells it.
    pub fn describe(&self) -> (line: String)
        ensures
            line@ == status_line(*self),
    {
        match self {
            Status::Enabled { bucket } => {
                let mut line = joined("✓ enabled (bucket=", bucket);
                line.append(")");
                line
            },
            Status::Disabled => "✗ disabled (RESTRICTED_ADDRESS_S3_BUCKET not set)".to_owned(),
        }
    }
}

/// What startup has to do for the screener.
#[derive(Debug)]
pub enum Init {
    /// No bucket is configured: screening is off.
    Off(Status),
    /// A bucket is configured: look this key up once, and hand the answer to
    /// [`init_with`].
    Probe(Lookup),
}

/// Decide from config how the screener starts.
///
/// - bucket unset: screening is off
/// - bucket set: the bucket is probed once, and [`init_with`] decides on the answer
pub fn init(config: &Config) -> (start: Init)
    ensures
        match start {
            Init::Off(status) => config@.restricted_address_s3_bucket is None && status is Disabled,
            Init::Probe(lookup) => config@.restricted_address_s3_bucket == Some(lookup@.bucket)
                && lookup@.key == CANARY_KEY@,
        },
{
    match &config.restricted_address_s3_bucket {
        None => Init::Off(Status::Disabled),
        Some(bucket) => Init::Probe(
            Lookup { bucket: bucket.clone(), key: CANARY_KEY.to_owned() },
        ),
    }
}

/// Decide on the probe's answer. A reachable bucket (a `404`, or even a `200`) proves that
/// credentials and permissions work; any other answer is an error that aborts startup, so
/// a misconfigured screener never serves traffic.
pub fn init_with(bucket: String, answer: HeadAnswer) -> (started: Result<
    (RestrictedAddressScreener, Status),
    String,
>)
    ensures
        match started {
            Ok((screener, status)) => meaning(answer) is Ok && screener.bucket@ == bucket@
                && status is Enabled && status->bucket@ == bucket@,
            Err(message) => meaning(answer) is Err && message@
                == "restricted address screening probe failed for bucket "@ + bucket@,
        },
{
    match head_key(answer) {
        Ok(_) => {
            let status = Status::Enabled { bucket: bucket.clone() };
            Ok((RestrictedAddressScreener::new(bucket), status))
        },
        Err(_) => Err(joined("restricted address screening probe failed for bucket ", &bucket)),
    }
}

/// Only a `404` lets a payment through the screen.
pub proof fn only_not_found_allows(answer: HeadAnswer, refusal: ReplyView)
    ensures
        denial(meaning(answer), refusal) is None <==> answer == HeadAnswer::NotFound,
{
}

} // verus!
