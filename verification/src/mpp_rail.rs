//! The MPP payment rail: everything specific to MPP lives here.
//!
//! See `x402.rs` for the x402 rail and `dispatch.rs` for the neutral router that
//! classifies each request and delegates to whichever rail it is paying on.
//!
//! MPP (the Machine Payments Protocol) pays in stablecoins on the Tempo chain. Unlike x402
//! there is no facilitator service behind this rail: the `mpp` SDK verifies a credential
//! and settles it on Tempo in the same call.

use alloy_primitives::Bytes;
use mpp::{
    Base64UrlJson, ChargeRequest, PayloadType, PaymentChallenge, PaymentCredential, Receipt,
};
use serde_json::Value;
use tempo_primitives::transaction::AASigned;
use vstd::prelude::*;
use vstd::string::*;
use vstd::utf8::*;

use crate::config::MppConfig;
use crate::endpoints::{Endpoint, EndpointView};
use crate::error::{error_reply, joined, json_error, result_view, AppError, ErrorView};
use crate::http::{
    bytes_of, is_header_byte, is_header_value, lookup, optional_text, text_of,
    with_header, Headers, Reply, ReplyView,
};
use crate::json::{
    json_members, json_text, json_tree, json_trees, list_value, member, names_differ, number_value,
    object_of_one, object_value, read, readable, text_in, text_value, tree, write_text, Json, Tree,
};
use crate::metrics::PaymentStep;
use crate::payment::{uncharged, Answer, AnswerView, Outcome};
use crate::screener::{
    base64url, denial, head_key, key_of, meaning, require_allowed, HeadAnswer, Lookup, LookupView,
    RestrictedAddressScreener,
};
use crate::text::{
    characters, decimal, decimal_text, has_line_break, hex_bytes, hex_digit_value, hex_number,
    is_utc_timestamp, lemma_hex_number_prefix, lemma_timestamp_is_visible, lowered, pieces,
    starts_with, trimmed,
};
use crate::x402::{bucket_of, is_evm_address};

verus! {

/// The credential arrives in the `Authorization` request header.
pub const AUTHORIZATION: &'static str = "authorization";

/// The challenge is advertised in the `WWW-Authenticate` header of the cold `402`.
pub const WWW_AUTHENTICATE: &'static str = "www-authenticate";

/// The settlement receipt returns to the client in the `Payment-Receipt` response header,
/// the dual of the `Authorization` request header.
pub const PAYMENT_RECEIPT_HEADER: &'static str = "payment-receipt";

/// The realm named in every MPP challenge and echoed back in every credential.
pub const REALM: &'static str = "bx402";

/// The EVM treasury address that receives MPP payments (the challenge recipient).
pub const PAY_TO_EVM: &'static str = "0xbd9420A98a7Bd6B89765e5715e169481602D9c3d";

/// The payment method of every MPP challenge.
pub const METHOD: &'static str = "tempo";

/// The payment intent of every MPP challenge.
pub const INTENT: &'static str = "charge";

/// How many minutes an MPP challenge can be answered.
pub const CHALLENGE_MINUTES: u64 = 5;

/// The TIP-20 address of pathUSD, the same on every Tempo network.
pub const PATH_USD: &'static str = "0x20c0000000000000000000000000000000000000";

/// How many seconds to wait for the startup chain-id query before giving up.
pub const CHAIN_QUERY_TIMEOUT_SECONDS: u64 = 5;

/// The chain id of Tempo mainnet.
pub const TEMPO_CHAIN_ID: u64 = 4217;

/// The chain id of Moderato, the Tempo testnet.
pub const MODERATO_CHAIN_ID: u64 = 42431;

/// The byte that marks a Tempo transaction.
pub const TEMPO_TX_TYPE_ID: u8 = 0x76;

/// The message of every refusal.
pub const REJECTION: &'static str = "mpp payment did not verify";

/// The message for a payment that could not be verified because Tempo was unreachable.
pub const NETWORK_UNAVAILABLE: &'static str = "payment network unavailable";

// The chain and the charge.

/// The Tempo networks this rail serves.
#[derive(Debug, Clone, Copy, PartialEq, Eq, Structural)]
pub enum TempoNetwork {
    Mainnet,
    Moderato,
}

/// The network with a chain id.
pub open spec fn network_of(chain_id: u64) -> Option<TempoNetwork> {
    if chain_id == TEMPO_CHAIN_ID {
        Some(TempoNetwork::Mainnet)
    } else if chain_id == MODERATO_CHAIN_ID {
        Some(TempoNetwork::Moderato)
    } else {
        None
    }
}

impl TempoNetwork {
    /// The network with a chain id.
    pub fn from_chain_id(chain_id: u64) -> (network: Option<TempoNetwork>)
        ensures
            network == network_of(chain_id),
    {
        if chain_id == TEMPO_CHAIN_ID {
            Some(TempoNetwork::Mainnet)
        } else if chain_id == MODERATO_CHAIN_ID {
            Some(TempoNetwork::Moderato)
        } else {
            None
        }
    }
}

/// The MPP rail of a deployment.
pub struct Client {
    /// The chain it settles on.
    pub chain_id: u64,
    /// The secret that marks its challenges as ours.
    pub secret_key: String,
}

/// What a challenge advertises, and what a credential is verified against.
#[derive(Debug)]
pub struct Charge {
    /// Base units of the currency.
    pub amount: String,
    pub currency: String,
    pub recipient: String,
    pub chain_id: u64,
}

/// The mathematical value of a [`Charge`].
#[verifier::ext_equal]
pub struct ChargeView {
    pub amount: Seq<char>,
    pub currency: Seq<char>,
    pub recipient: Seq<char>,
    pub chain_id: u64,
}

impl View for Charge {
    type V = ChargeView;

    open spec fn view(&self) -> ChargeView {
        ChargeView {
            amount: self.amount@,
            currency: self.currency@,
            recipient: self.recipient@,
            chain_id: self.chain_id,
        }
    }
}

/// The charge for a request of this price on this chain: pathUSD, to the treasury.
pub open spec fn charge_on(chain_id: u64, price: u64) -> ChargeView {
    ChargeView {
        amount: decimal(price as nat),
        currency: PATH_USD@,
        recipient: PAY_TO_EVM@,
        chain_id,
    }
}

/// Why the rail does not serve a chain, where it does not. An unsupported chain is refused,
/// and a testnet chain is served only when the testnet is allowed.
pub open spec fn unserved(chain_id: u64, allow_testnet: bool) -> Option<ErrorView> {
    match network_of(chain_id) {
        None => Some(
            ErrorView::InvalidConfig(
                "MPP: unsupported Tempo chain "@ + decimal(chain_id as nat),
            ),
        ),
        Some(network) => if network == TempoNetwork::Moderato && !allow_testnet {
            Some(
                ErrorView::InvalidConfig(
                    "MPP_RPC_URL: chain "@ + decimal(chain_id as nat)
                        + " is a testnet; set ALLOW_TESTNET=true to accept it"@,
                ),
            )
        } else {
            None
        },
    }
}

/// Build the MPP rail for the chain that the RPC endpoint reported.
///
/// The chain is whatever the endpoint reports at startup, never assumed from the URL. An
/// unsupported chain is refused, and a testnet chain is served only when the testnet is
/// allowed.
pub fn client(rail: &MppConfig, chain_id: u64, allow_testnet: bool) -> (built: Result<
    Client,
    AppError,
>)
    ensures
        match built {
            Ok(client) => unserved(chain_id, allow_testnet) is None && client.chain_id == chain_id
                && client.secret_key@ == rail.secret_key@,
            Err(err) => unserved(chain_id, allow_testnet) == Some(err@),
        },
{
    let testnet: bool = match TempoNetwork::from_chain_id(chain_id) {
        Some(TempoNetwork::Moderato) => true,
        Some(TempoNetwork::Mainnet) => false,
        None => {
            return Err(
                AppError::InvalidConfig(
                    joined("MPP: unsupported Tempo chain ", &decimal_text(chain_id)),
                ),
            );
        },
    };
    if testnet && !allow_testnet {
        let mut message = joined("MPP_RPC_URL: chain ", &decimal_text(chain_id));
        message.append(" is a testnet; set ALLOW_TESTNET=true to accept it");
        return Err(AppError::InvalidConfig(message));
    }
    Ok(Client { chain_id, secret_key: rail.secret_key.clone() })
}

impl Client {
    /// The charge for a request of this price. The currency is pinned to pathUSD, the same
    /// TIP-20 address on every Tempo network.
    pub fn charge(&self, price: u64) -> (charge: Charge)
        ensures
            charge@ == charge_on(self.chain_id, price),
    {
        Charge {
            amount: decimal_text(price),
            currency: PATH_USD.to_owned(),
            recipient: PAY_TO_EVM.to_owned(),
            chain_id: self.chain_id,
        }
    }

    /// The MPP contribution to the cold `402`: a `WWW-Authenticate: Payment` challenge
    /// carrying the charge a credential must answer (the `Payment` scheme; the client replies
    /// with `Authorization: Payment <credential>`). Signed with the rail's secret and good
    /// until `expires`. `None` if the challenge cannot be encoded, which a point in time
    /// never brings about.
    pub fn challenge(&self, price: u64, expires: &str) -> (header: Option<String>)
        ensures
            optional_text(header) == challenge_for(*self, price, expires@),
            header is Some <==> !has_line_break(expires@),
            header is Some ==> starts_with(header->0@, "Payment "@),
            header is Some && is_header_value(encode_utf8(expires@)) ==> is_header_value(
                encode_utf8(header->0@),
            ),
            is_utc_timestamp(expires@) && self.chain_id <= MAX_EXACT ==> header is Some
                && is_our_challenge(header->0@, charge_on(self.chain_id, price), expires@),
    {
        let charge = self.charge(price);
        let details = object_of_one("chainId", number_value(self.chain_id));
        let header = mint(&self.secret_key, (REALM, METHOD, INTENT), &charge, details, expires);
        proof {
            lemma_names_are_plain();
            reveal_with_fuel(ten_to, 21);
            lemma_decimal_is_short(price as nat, 20);
            reveal_strlit("0x20c0000000000000000000000000000000000000");
            reveal_strlit("0xbd9420A98a7Bd6B89765e5715e169481602D9c3d");
            if is_utc_timestamp(expires@) {
                lemma_timestamp_is_visible(expires@);
            }
        }
        header
    }
}

/// The largest whole number up to which every number is written exactly as a float.
pub const MAX_EXACT: u64 = 0x1f_ffff_ffff_ffff;

/// What a challenge says of a charge. The members stand in alphabetical order.
pub open spec fn charge_document(charge: ChargeView) -> Tree {
    Tree::Object(
        seq![
            ("amount"@, Tree::Text(charge.amount)),
            ("currency"@, Tree::Text(charge.currency)),
            ("methodDetails"@, chain_details(charge.chain_id)),
            ("recipient"@, Tree::Text(charge.recipient)),
        ],
    )
}

/// What a challenge says of the chain.
pub open spec fn chain_details(chain_id: u64) -> Tree {
    Tree::Object(seq![("chainId"@, Tree::Number(decimal(chain_id as nat)))])
}

/// The challenge that a secret signs, for a realm, a method, an intent, a request, and a time
/// of expiry, as it stands in a `WWW-Authenticate` header.
pub uninterp spec fn minted(
    secret: Seq<char>,
    realm: Seq<char>,
    method: Seq<char>,
    intent: Seq<char>,
    request: Tree,
    expires: Seq<char>,
) -> Option<Seq<char>>;

/// A challenge as a client reads it.
pub struct Challenge {
    pub id: String,
    pub realm: String,
    pub method: String,
    pub intent: String,
    /// What is asked to be paid.
    pub request: Value,
    pub expires: Option<String>,
}

/// The mathematical value of a [`Challenge`].
#[verifier::ext_equal]
pub struct ChallengeView {
    pub id: Seq<char>,
    pub realm: Seq<char>,
    pub method: Seq<char>,
    pub intent: Seq<char>,
    pub request: Tree,
    pub expires: Option<Seq<char>>,
}

impl View for Challenge {
    type V = ChallengeView;

    open spec fn view(&self) -> ChallengeView {
        ChallengeView {
            id: self.id@,
            realm: self.realm@,
            method: self.method@,
            intent: self.intent@,
            request: json_tree(self.request),
            expires: optional_text(self.expires),
        }
    }
}

/// What a client reads in a `WWW-Authenticate` challenge, where it is one.
pub uninterp spec fn advertised(challenge: Seq<char>) -> Option<ChallengeView>;

/// Whether a challenge that was read names an id and says otherwise just this.
pub open spec fn says(
    challenge: Option<ChallengeView>,
    realm: Seq<char>,
    method: Seq<char>,
    intent: Seq<char>,
    request: Tree,
    expires: Seq<char>,
) -> bool {
    &&& challenge matches Some(read)
    &&& read.id.len() > 0
    &&& read == (ChallengeView {
        id: read.id,
        realm,
        method,
        intent,
        request,
        expires: Some(expires),
    })
}

/// Whether a header reads back as our challenge for a charge: our realm, the method and the
/// intent of every challenge, the charge, and the time of expiry, under an id.
pub open spec fn is_our_challenge(
    header: Seq<char>,
    charge: ChargeView,
    expires: Seq<char>,
) -> bool {
    says(advertised(header), REALM@, METHOD@, INTENT@, charge_document(charge), expires)
}

/// Whether `name` may name a payment method: small letters, at least one.
pub open spec fn is_method_name(name: Seq<char>) -> bool {
    name.len() > 0 && forall|i: int| 0 <= i < name.len() ==> 'a' <= #[trigger] name[i] <= 'z'
}

/// Whether a charge is of a size that a challenge is read with, on a chain whose id a float
/// holds exactly.
pub open spec fn is_moderate(charge: ChargeView) -> bool {
    &&& charge.chain_id <= MAX_EXACT
    &&& charge.amount.len() + charge.currency.len() + charge.recipient.len() <= 1000
}

/// The challenge that a rail issues for a price.
pub open spec fn challenge_for(client: Client, price: u64, expires: Seq<char>) -> Option<
    Seq<char>,
> {
    minted(
        client.secret_key@,
        REALM@,
        METHOD@,
        INTENT@,
        charge_document(charge_on(client.chain_id, price)),
        expires,
    )
}

/// `PaymentChallenge::with_secret_key_full` of `mpp` over a `ChargeRequest` encoded by
/// `Base64UrlJson::from_typed`, and its `to_header`; `names` are realm, method, and intent.
/// Claims that the header depends on these values alone; that it fails only for a line break
/// in a name or in the time of expiry; that it is of the `Payment` scheme, and can be sent
/// where the names and the time can; and that it reads back as what it was minted with, under
/// an id that is not empty. Read back are only names in ASCII, a proper method name and time,
/// a request of moderate size, and a chain id that a float holds exactly: the encoding writes
/// numbers as floats. An intent reads back in lower case.
#[verifier::external_body]
fn mint(
    secret: &str,
    names: (&str, &str, &str),
    charge: &Charge,
    details: Value,
    expires: &str,
) -> (header: Option<String>)
    requires
        json_tree(details) == chain_details(charge.chain_id),
    ensures
        optional_text(header) == minted(
            secret@,
            names.0@,
            names.1@,
            names.2@,
            charge_document(charge@),
            expires@,
        ),
        header is Some == (!has_line_break(names.0@) && !has_line_break(names.1@)
            && !has_line_break(names.2@) && !has_line_break(expires@)),
        header is Some ==> starts_with(header->0@, "Payment "@),
        header is Some && is_header_value(encode_utf8(names.0@)) && is_header_value(
            encode_utf8(names.1@),
        ) && is_header_value(encode_utf8(names.2@)) && is_header_value(encode_utf8(expires@))
            ==> is_header_value(encode_utf8(header->0@)),
        header is Some && is_ascii_chars(names.0@) && is_method_name(names.1@) && is_ascii_chars(
            names.2@,
        ) && is_utc_timestamp(expires@) && is_moderate(charge@) ==> says(
            advertised(header->0@),
            names.0@,
            names.1@,
            lowered(names.2@),
            charge_document(charge@),
            expires@,
        ),
{
    let request = ChargeRequest {
        amount: charge.amount.clone(),
        currency: charge.currency.clone(),
        recipient: Some(charge.recipient.clone()),
        method_details: Some(details),
        ..Default::default()
    };
    let encoded = Base64UrlJson::from_typed(&request).ok()?;
    let (realm, method, intent) = names;
    let time = Some(expires);
    PaymentChallenge::with_secret_key_full(
        secret, realm, method, intent, encoded, time, None, None, None,
    ).to_header().ok()
}

/// `PaymentChallenge::from_header` of `mpp`, and the JSON of the request it holds. Claims that
/// what is read depends on the header value alone.
#[verifier::external_body]
fn parse_challenge(header: &str) -> (challenge: Option<Challenge>)
    ensures
        match challenge {
            Some(challenge) => advertised(header@) == Some(challenge@),
            None => advertised(header@) is None,
        },
{
    let read = PaymentChallenge::from_header(header).ok()?;
    let request = read.request.decode_value().ok()?;
    let (id, realm, expires) = (read.id, read.realm, read.expires);
    let (method, intent) = (read.method.to_string(), read.intent.to_string());
    Some(Challenge { id, realm, method, intent, request, expires })
}

/// What a client reads in a `WWW-Authenticate` challenge, where it is one.
pub fn read_challenge(header: &str) -> (challenge: Option<Challenge>)
    ensures
        match challenge {
            Some(challenge) => advertised(header@) == Some(challenge@),
            None => advertised(header@) is None,
        },
{
    parse_challenge(header)
}

proof fn lemma_names_are_plain()
    ensures
        !has_line_break(REALM@),
        !has_line_break(METHOD@),
        !has_line_break(INTENT@),
        is_header_value(encode_utf8(REALM@)),
        is_header_value(encode_utf8(METHOD@)),
        is_header_value(encode_utf8(INTENT@)),
        is_method_name(METHOD@),
        is_ascii_chars(REALM@),
        is_ascii_chars(INTENT@),
        lowered(INTENT@) == INTENT@,
{
    reveal_strlit("bx402");
    reveal_strlit("tempo");
    reveal_strlit("charge");
    lemma_visible_is_sendable(REALM@);
    lemma_visible_is_sendable(METHOD@);
    lemma_visible_is_sendable(INTENT@);
}

proof fn lemma_visible_is_sendable(text: Seq<char>)
    requires
        forall|i: int| 0 <= i < text.len() ==> ' ' <= #[trigger] text[i] <= '~',
    ensures
        is_header_value(encode_utf8(text)),
{
    assert(is_ascii_chars(text));
    is_ascii_chars_encode_utf8(text);
    let bytes = encode_utf8(text);
    assert forall|i: int| 0 <= i < bytes.len() implies is_header_byte(#[trigger] bytes[i]) by {
        assert(' ' <= text[i] <= '~');
        assert(text[i] as u8 == bytes[i]);
    }
}

/// A point in time can be sent in a header.
pub proof fn lemma_timestamp_is_sendable(time: Seq<char>)
    requires
        is_utc_timestamp(time),
    ensures
        is_header_value(encode_utf8(time)),
{
    lemma_timestamp_is_visible(time);
    lemma_visible_is_sendable(time);
}

proof fn lemma_decimal_is_short(n: nat, digits: nat)
    requires
        n < ten_to(digits),
        digits > 0,
    ensures
        decimal(n).len() <= digits,
    decreases digits,
{
    if n >= 10 {
        assert(n / 10 < ten_to((digits - 1) as nat));
        lemma_decimal_is_short(n / 10, (digits - 1) as nat);
    }
}

/// Ten to the power of `digits`.
pub open spec fn ten_to(digits: nat) -> nat
    decreases digits,
{
    if digits == 0 {
        1
    } else {
        10 * ten_to((digits - 1) as nat)
    }
}

/// The JSON-RPC request that asks an endpoint for its chain id.
pub open spec fn chain_query_document() -> Tree {
    Tree::Object(
        seq![
            ("jsonrpc"@, Tree::Text("2.0"@)),
            ("id"@, Tree::Number("1"@)),
            ("method"@, Tree::Text("eth_chainId"@)),
            ("params"@, Tree::List(Seq::empty())),
        ],
    )
}

/// The body of the request that asks an RPC endpoint for its chain id (`eth_chainId`).
pub fn chain_query() -> (body: String)
    ensures
        body@ == json_text(chain_query_document()),
{
    let mut members: Vec<(String, Value)> = Vec::new();
    let params: Vec<Value> = Vec::new();
    members.push(("jsonrpc".to_owned(), text_value("2.0")));
    members.push(("id".to_owned(), number_value(1)));
    members.push(("method".to_owned(), text_value("eth_chainId")));
    members.push(("params".to_owned(), list_value(params)));
    proof {
        reveal_strlit("jsonrpc");
        reveal_strlit("id");
        reveal_strlit("method");
        reveal_strlit("params");
        reveal_strlit("1");
        assert(decimal(1) == "1"@);
        assert(json_trees(params@) == Seq::<Tree>::empty());
        let all = json_members(members@);
        assert(all[0].0.len() == 7 && all[1].0.len() == 2 && all[2].0[0] == 'm' && all[3].0[0]
            == 'p');
        assert(all[2].0.len() == 6 && all[3].0.len() == 6);
        assert(all == chain_query_document()->Object_0);
    }
    write_text(&object_value(members))
}

/// The number that text like `0xa5bf` writes, where it fits: `0x`, an optional plus sign,
/// and at least one hexadecimal digit.
pub open spec fn chain_id_text(text: Seq<char>) -> Option<u64> {
    if !starts_with(text, "0x"@) {
        None
    } else {
        let rest = text.subrange(2, text.len() as int);
        let digits = if rest.len() > 0 && rest[0] == '+' {
            rest.drop_first()
        } else {
            rest
        };
        if digits.len() == 0 {
            None
        } else {
            match hex_number(digits) {
                Some(n) => if n <= u64::MAX {
                    Some(n as u64)
                } else {
                    None
                },
                None => None,
            }
        }
    }
}

/// The chain id that a JSON-RPC response reports.
pub open spec fn reported_chain_id(body: Tree) -> Option<u64> {
    match text_in(member(body, "result"@)) {
        Some(text) => chain_id_text(text),
        None => None,
    }
}

/// The number that text like `0xa5bf` writes, where it fits.
pub fn parse_chain_id(text: &str) -> (chain_id: Option<u64>)
    ensures
        chain_id == chain_id_text(text@),
{
    let chars = characters(text);
    let n: usize = chars.len();
    proof {
        reveal_strlit("0x");
    }
    if n < 2 || chars[0] != '0' || chars[1] != 'x' {
        assert(!starts_with(text@, "0x"@)) by {
            if starts_with(text@, "0x"@) {
                assert(text@.subrange(0, 2)[0] == text@[0]);
                assert(text@.subrange(0, 2)[1] == text@[1]);
            }
        }
        return None;
    }
    assert(text@.subrange(0, 2) == "0x"@);
    let mut from: usize = 2;
    if n > 2 && chars[2] == '+' {
        from = 3;
    }
    let ghost digits = text@.subrange(from as int, n as int);
    assert(from == 3 ==> digits == text@.subrange(2, n as int).drop_first());
    if from == n {
        return None;
    }
    let mut value: u64 = 0;
    let mut i: usize = from;
    assert(digits.subrange(0, 0) == Seq::<char>::empty());
    while i < n
        invariant
            2 <= from <= i <= n == chars@.len(),
            chars@ == text@,
            digits == text@.subrange(from as int, n as int),
            hex_number(digits.subrange(0, i - from)) == Some(value as nat),
            from < n,
            chain_id_text(text@) == (match hex_number(digits) {
                Some(all) => if all <= u64::MAX {
                    Some(all as u64)
                } else {
                    None
                },
                None => None,
            }),
        decreases n - i,
    {
        let ghost done = digits.subrange(0, i - from);
        let ghost more = digits.subrange(0, i - from + 1);
        assert(more.drop_last() == done);
        assert(more.last() == chars@[i as int]);
        proof {
            lemma_hex_number_prefix(digits, i - from + 1);
        }
        match hex_digit_value(chars[i]) {
            None => {
                return None;
            },
            Some(digit) => {
                if value > 0x0fff_ffff_ffff_ffff {
                    return None;
                }
                value = 16 * value + digit as u64;
            },
        }
        i = i + 1;
    }
    assert(digits.subrange(0, n - from) == digits);
    Some(value)
}

/// A misconfigured `MPP_RPC_URL`.
pub fn invalid_rpc_url(detail: &str) -> (err: AppError)
    ensures
        err@ == ErrorView::InvalidConfig("MPP_RPC_URL: "@ + detail@),
{
    AppError::InvalidConfig(joined("MPP_RPC_URL: ", detail))
}

/// The chain id that a response to [`chain_query`] reports, a hex string like `"0xa5bf"`.
pub fn chain_id_of(body: &Json) -> (chain_id: Option<u64>)
    ensures
        chain_id == reported_chain_id(tree(*body)),
{
    match body.get("result") {
        Some(result) => match result.as_str() {
            Some(text) => parse_chain_id(text),
            None => None,
        },
        None => None,
    }
}

/// The chain id the RPC endpoint reports for itself, out of its response.
pub fn get_chain_id(body: &Value) -> (chain_id: Result<u64, AppError>)
    ensures
        result_view(chain_id) == (match reported_chain_id(json_tree(*body)) {
            Some(chain_id) => Ok::<u64, ErrorView>(chain_id),
            None => Err(
                ErrorView::InvalidConfig(
                    "MPP_RPC_URL: "@ + ("eth_chainId returned no chain id: "@ + json_text(
                        json_tree(*body),
                    )),
                ),
            ),
        }),
{
    match chain_id_of(&read(body)) {
        Some(chain_id) => Ok(chain_id),
        None => Err(
            invalid_rpc_url(&joined("eth_chainId returned no chain id: ", &write_text(body))),
        ),
    }
}

// The credential.

/// What a charge credential pays with.
#[derive(Debug)]
pub enum ChargePayload {
    /// A signed transaction that this service broadcasts.
    Transaction(String),
    /// The hash of a transaction that the client already broadcast itself.
    Hash(String),
    /// A signed proof that moves no money.
    Proof(String),
}

/// The mathematical value of a [`ChargePayload`].
#[verifier::ext_equal]
pub enum PayloadView {
    Transaction(Seq<char>),
    Hash(Seq<char>),
    Proof(Seq<char>),
}

impl View for ChargePayload {
    type V = PayloadView;

    open spec fn view(&self) -> PayloadView {
        match self {
            ChargePayload::Transaction(data) => PayloadView::Transaction(data@),
            ChargePayload::Hash(data) => PayloadView::Hash(data@),
            ChargePayload::Proof(data) => PayloadView::Proof(data@),
        }
    }
}

/// Whether an `Authorization` value holds an MPP credential that can be read.
pub uninterp spec fn is_credential(authorization: Seq<char>) -> bool;

/// What the credential in an `Authorization` value pays with, where it is a charge
/// credential.
pub uninterp spec fn charge_payload(authorization: Seq<char>) -> Option<PayloadView>;

/// The address that signed an encoded Tempo transaction, where it decodes and its signature
/// is sound.
pub uninterp spec fn transaction_signer(transaction: Seq<u8>) -> Option<Seq<char>>;

/// Whether one of the comma-separated parts of an `Authorization` value is of the `Payment`
/// scheme, whatever its case.
pub open spec fn names_payment_scheme(authorization: Seq<char>) -> bool {
    exists|i: int|
        0 <= i < pieces(authorization, ',').len() && starts_with(
            lowered(trimmed(#[trigger] pieces(authorization, ',')[i])),
            "payment "@,
        )
}

/// `PaymentCredential::from_header` of `mpp`, of which only the success is kept. Claims
/// that it depends on the header value alone, and that a value without the `Payment` scheme
/// is refused.
#[verifier::external_body]
fn credential_reads(authorization: &str) -> (reads: bool)
    ensures
        reads == is_credential(authorization@),
        reads ==> names_payment_scheme(authorization@),
{
    PaymentCredential::from_header(authorization).is_ok()
}

/// `PaymentCredential::charge_payload` of `mpp` on the credential in a header value, with
/// the kinds of payload told apart. Claims that it depends on the header value alone, and
/// that there is none where the credential cannot be read.
#[verifier::external_body]
fn charge_payload_in(authorization: &str) -> (payload: Option<ChargePayload>)
    ensures
        match payload {
            Some(payload) => charge_payload(authorization@) == Some(payload@),
            None => charge_payload(authorization@) is None,
        },
        payload is Some ==> is_credential(authorization@),
{
    let payload = PaymentCredential::from_header(authorization).ok()?.charge_payload().ok()?;
    let data = payload.data().to_owned();
    Some(
        match payload.payload_type {
            PayloadType::Transaction => ChargePayload::Transaction(data),
            PayloadType::Hash => ChargePayload::Hash(data),
            PayloadType::Proof => ChargePayload::Proof(data),
        },
    )
}

/// `Bytes::from_str` of `alloy-primitives`. Claims that it reads an even number of
/// hexadecimal digits of either case, with or without `0x`, and nothing else.
#[verifier::external_body]
fn bytes_from_hex(text: &str) -> (bytes: Option<Vec<u8>>)
    ensures
        match bytes {
            Some(bytes) => hex_bytes(text@) == Some(bytes@),
            None => hex_bytes(text@) is None,
        },
{
    text.parse::<Bytes>().ok().map(|bytes| bytes.to_vec())
}

/// `AASigned::rlp_decode` of `tempo-primitives` and its signature's `recover_signer` over
/// its own signature hash, the address written by `{:#x}`. Claims that the result depends
/// on the bytes alone, that only an RLP list has a signer, and that an address is written in
/// lower case. Whose key made the signature is left unsaid: the library never signs.
#[verifier::external_body]
fn recover_signer(transaction: &[u8]) -> (signer: Option<String>)
    ensures
        optional_text(signer) == transaction_signer(transaction@),
        signer is Some ==> transaction@.len() > 0 && transaction@[0] >= 0xc0,
        signer is Some ==> is_evm_address(signer->0@) && lowered(signer->0@) == signer->0@,
{
    let mut input = transaction;
    let signed = AASigned::rlp_decode(&mut input).ok()?;
    let signer = signed.signature().recover_signer(&signed.signature_hash()).ok()?;
    Some(format!("{signer:#x}"))
}

/// The transaction without the byte that marks its type, where that is there.
pub open spec fn untyped(transaction: Seq<u8>) -> Seq<u8> {
    if transaction.len() > 0 && transaction[0] == TEMPO_TX_TYPE_ID {
        transaction.drop_first()
    } else {
        transaction
    }
}

/// The payer of a payload: who signed its transaction.
pub open spec fn signer_of(payload: PayloadView) -> Option<Seq<char>> {
    match payload {
        PayloadView::Transaction(text) => match hex_bytes(text) {
            Some(transaction) => transaction_signer(untyped(transaction)),
            None => None,
        },
        _ => None,
    }
}

/// The credential that headers carry.
pub open spec fn credential_in(headers: Seq<(Seq<char>, Seq<u8>)>) -> Option<Seq<char>> {
    match text_of(headers, AUTHORIZATION@) {
        Some(authorization) => if is_credential(authorization) {
            Some(authorization)
        } else {
            None
        },
        None => None,
    }
}

/// Whether the request carries an MPP credential (an `Authorization` header).
pub fn has_credential(headers: &Headers) -> (present: bool)
    ensures
        present == lookup(headers@, AUTHORIZATION@) is Some,
{
    headers.contains_key(AUTHORIZATION)
}

/// The MPP credential from the `Authorization` header. `None` if the header is absent, not
/// UTF-8, or not the `Payment <credential>` form.
pub fn credential(headers: &Headers) -> (authorization: Option<String>)
    ensures
        optional_text(authorization) == credential_in(headers@),
        authorization is Some ==> names_payment_scheme(authorization->0@),
{
    match headers.text(AUTHORIZATION) {
        Some(authorization) => {
            if credential_reads(&authorization) {
                Some(authorization)
            } else {
                None
            }
        },
        None => None,
    }
}

/// The credential's signed transaction, if it pays with one that this service broadcasts
/// during verification. A hash credential says the client already broadcast the transfer
/// itself, settling before anything was checked, so it does not pay here.
pub fn transaction_payload(payload: &ChargePayload) -> (transaction: Option<&String>)
    ensures
        match transaction {
            Some(transaction) => payload@ == PayloadView::Transaction(transaction@),
            None => !(payload@ is Transaction),
        },
{
    match payload {
        ChargePayload::Transaction(transaction) => Some(transaction),
        ChargePayload::Hash(_) => None,
        ChargePayload::Proof(_) => None,
    }
}

/// The payer, recovered from the signed transaction's own signature: the address the
/// transfer draws from, independent of anything the credential envelope claims. Lowercase
/// 0x hex, the screener's canonical form for EVM addresses. `None` when the payload does
/// not carry a decodable signed Tempo transaction, which verification would refuse anyway.
pub fn signer_address(payload: &ChargePayload) -> (signer: Option<String>)
    ensures
        optional_text(signer) == signer_of(payload@),
        signer is Some ==> is_evm_address(signer->0@) && lowered(signer->0@) == signer->0@,
        signer is Some ==> payload@ is Transaction && hex_bytes(payload@->Transaction_0) is Some
            && untyped(hex_bytes(payload@->Transaction_0)->0).len() > 0,
{
    let text = transaction_payload(payload)?;
    let bytes = bytes_from_hex(text)?;
    if bytes.len() > 0 && bytes[0] == TEMPO_TX_TYPE_ID {
        let mut bytes = bytes;
        let ghost all = bytes@;
        let _ = bytes.remove(0);
        assert(bytes@ == all.drop_first());
        recover_signer(&bytes)
    } else {
        recover_signer(&bytes)
    }
}

// The receipt.

/// A settlement receipt of `mpp`.
#[verifier::external_type_specification]
#[verifier::external_body]
pub struct ExReceipt(Receipt);

/// The JSON document that a receipt holds.
pub uninterp spec fn receipt_document(receipt: Receipt) -> Tree;

/// A receipt as it is sent in a header: its JSON, base64url-encoded.
pub open spec fn receipt_text(receipt: Receipt) -> Seq<char> {
    base64url(encode_utf8(json_text(receipt_document(receipt))))
}

/// A character of base64url text.
pub open spec fn is_base64url_char(c: char) -> bool {
    'A' <= c <= 'Z' || 'a' <= c <= 'z' || '0' <= c <= '9' || c == '-' || c == '_'
}

/// The receipt that a `Payment-Receipt` header holds, where it holds one.
pub uninterp spec fn receipt_in(header: Seq<char>) -> Option<Tree>;

/// Whether `name` names a member that the core protocol defines for receipts.
pub open spec fn is_receipt_field(name: Seq<char>) -> bool {
    name == "status"@ || name == "method"@ || name == "timestamp"@ || name == "reference"@ || name
        == "externalId"@ || name == "subscriptionId"@
}

/// Where the members begin that stand behind an optional one called `name` at `from`.
pub open spec fn behind(members: Seq<(Seq<char>, Tree)>, from: int, name: Seq<char>) -> int {
    if from < members.len() && members[from].0 == name && members[from].1 is Text {
        from + 1
    } else {
        from
    }
}

/// Whether a receipt document is one that is read: the members of every receipt, with a
/// proper method name and time; the merchant's reference and a subscription, where there are
/// any; and behind them members of a payment method's own, none of which takes the name of
/// another.
pub open spec fn is_proper_receipt(document: Tree) -> bool {
    &&& document matches Tree::Object(members)
    &&& members.len() >= 4
    &&& members[0] == ("status"@, Tree::Text("success"@))
    &&& members[1].0 == "method"@ && members[1].1 is Text && is_method_name(members[1].1->Text_0)
    &&& members[2].0 == "timestamp"@ && members[2].1 is Text && is_utc_timestamp(
        members[2].1->Text_0,
    )
    &&& members[3].0 == "reference"@ && members[3].1 is Text
    &&& forall|i: int|
        behind(members, behind(members, 4, "externalId"@), "subscriptionId"@) <= i < members.len()
            ==> !is_receipt_field((#[trigger] members[i]).0)
    &&& names_differ(members)
    &&& readable(document, 127)
}

/// Whether a receipt is read back from the header it is sent in.
pub open spec fn receipt_reads_back(receipt: Receipt) -> bool {
    is_proper_receipt(receipt_document(receipt)) && receipt_text(receipt).len() <= MAX_RECEIPT
        ==> receipt_in(receipt_text(receipt)) == Some(receipt_document(receipt))
}

/// How many characters of a receipt header are read.
pub const MAX_RECEIPT: usize = 16384;

/// `Receipt::from_header` of `mpp`. Claims that the receipt depends on the header value alone.
#[verifier::external_body]
fn receipt_from_header(header: &str) -> (receipt: Option<Receipt>)
    ensures
        match receipt {
            Some(receipt) => receipt_in(header@) == Some(receipt_document(receipt)),
            None => receipt_in(header@) is None,
        },
{
    Receipt::from_header(header).ok()
}

/// The receipt that a `Payment-Receipt` header holds, where it holds one.
pub fn read_receipt(header: &str) -> (receipt: Option<Receipt>)
    ensures
        match receipt {
            Some(receipt) => receipt_in(header@) == Some(receipt_document(receipt)),
            None => receipt_in(header@) is None,
        },
{
    receipt_from_header(header)
}

/// `Receipt::to_header` of `mpp`. It fails only where the receipt cannot be written as
/// JSON, which holds of none. Claims that the text is the receipt's JSON, base64url-encoded,
/// and that a proper receipt reads back while it is not longer than is read.
#[verifier::external_body]
fn receipt_header(receipt: &Receipt) -> (text: String)
    ensures
        text@ == base64url(encode_utf8(json_text(receipt_document(*receipt)))),
        is_proper_receipt(receipt_document(*receipt)) && text@.len() <= MAX_RECEIPT ==> receipt_in(
            text@,
        ) == Some(receipt_document(*receipt)),
        forall|i: int| 0 <= i < text@.len() ==> is_base64url_char(#[trigger] text@[i]),
{
    receipt.to_header().unwrap()
}

proof fn lemma_base64url_is_sendable(text: Seq<char>)
    requires
        forall|i: int| 0 <= i < text.len() ==> is_base64url_char(#[trigger] text[i]),
    ensures
        is_header_value(encode_utf8(text)),
{
    assert(is_ascii_chars(text));
    is_ascii_chars_encode_utf8(text);
    let bytes = encode_utf8(text);
    assert forall|i: int| 0 <= i < bytes.len() implies is_header_byte(#[trigger] bytes[i]) by {
        assert(is_base64url_char(text[i]));
        assert(text[i] as u8 == bytes[i]);
    }
}

/// A reply with the settlement receipt on it.
pub open spec fn with_receipt(reply: ReplyView, receipt: Receipt) -> ReplyView {
    with_header(reply, PAYMENT_RECEIPT_HEADER@, encode_utf8(receipt_text(receipt)))
}

/// Attach the settlement receipt as the `Payment-Receipt` header the client reads back,
/// leaving status and body untouched.
pub fn attach_receipt(reply: Reply, receipt: &Receipt) -> (receipted: Reply)
    ensures
        receipted@ == with_receipt(reply@, *receipt),
        is_header_value(encode_utf8(receipt_text(*receipt))),
        receipt_reads_back(*receipt),
{
    let text = receipt_header(receipt);
    let mut receipted = reply;
    receipted.headers.insert(PAYMENT_RECEIPT_HEADER, bytes_of(&text));
    proof {
        lemma_base64url_is_sendable(text@);
    }
    receipted
}

// The pay flow.

/// What the client is buying, and the `Authorization` value that pays for it.
#[derive(Debug)]
pub struct Order {
    pub endpoint: Endpoint,
    pub authorization: String,
}

/// The mathematical value of an [`Order`].
#[verifier::ext_equal]
pub struct OrderView {
    pub endpoint: EndpointView,
    pub authorization: Seq<char>,
}

impl View for Order {
    type V = OrderView;

    open spec fn view(&self) -> OrderView {
        OrderView { endpoint: self.endpoint@, authorization: self.authorization@ }
    }
}

/// Why a charge did not go through.
#[derive(Debug, Clone, Copy, PartialEq, Eq, Structural)]
pub enum ChargeFailure {
    /// The Tempo RPC could not be reached.
    Unreachable,
    /// The credential was refused.
    Rejected,
}

/// What the pay flow does next. Each step but the last is one call to the outside, whose
/// answer goes to the function that the step names.
pub enum Step {
    /// Look the payer up in the restricted list, then [`screened`].
    Screen(Order, Lookup),
    /// Verify and settle the credential against the charge, then [`charged`].
    Charge(Order, Charge),
    /// Run the search, then [`searched`].
    Search(Order, Receipt),
    /// Answer the client.
    Done(Answer),
}

/// The mathematical value of a [`Step`].
#[verifier::ext_equal]
pub enum Stage {
    Screen(OrderView, LookupView),
    Charge(OrderView, ChargeView),
    Search(OrderView, Receipt),
    Done(AnswerView),
}

impl View for Step {
    type V = Stage;

    open spec fn view(&self) -> Stage {
        match self {
            Step::Screen(order, lookup) => Stage::Screen(order@, lookup@),
            Step::Charge(order, charge) => Stage::Charge(order@, charge@),
            Step::Search(order, receipt) => Stage::Search(order@, *receipt),
            Step::Done(answer) => Stage::Done(answer@),
        }
    }
}

/// The step of a payment that a stage waits for, where it is one that is timed.
pub open spec fn timed_at(stage: Stage) -> Option<PaymentStep> {
    match stage {
        Stage::Charge(..) => Some(PaymentStep::Charge),
        _ => None,
    }
}

impl Step {
    /// The step of a payment that this waits for, where it is one that is timed.
    pub fn payment_step(&self) -> (step: Option<PaymentStep>)
        ensures
            step == timed_at(self@),
    {
        match self {
            Step::Charge(_, _) => Some(PaymentStep::Charge),
            _ => None,
        }
    }
}

/// A `402` refusing the payment. Every refusal carries the same message.
pub open spec fn rejection() -> ReplyView {
    error_reply(402, REJECTION@)
}

/// The step that charges an order.
pub open spec fn charging(chain_id: u64, order: OrderView) -> Stage {
    Stage::Charge(order, charge_on(chain_id, order.endpoint.price_base_units))
}

/// Where the flow starts with a credential whose payload was read, with the screener's
/// bucket where there is a screener.
pub open spec fn start_with(
    order: OrderView,
    payload: Option<PayloadView>,
    chain_id: u64,
    bucket: Option<Seq<char>>,
) -> Stage {
    match payload {
        Some(payload) if payload is Transaction => match (bucket, signer_of(payload)) {
            (None, _) => charging(chain_id, order),
            (Some(_), None) => Stage::Done(uncharged(rejection(), Outcome::ScreenedOut)),
            (Some(bucket), Some(signer)) => Stage::Screen(
                order,
                LookupView { bucket, key: key_of(signer) },
            ),
        },
        _ => Stage::Done(uncharged(rejection(), Outcome::Unsupported)),
    }
}

/// Where the flow starts for a request with these headers.
pub open spec fn start(
    headers: Seq<(Seq<char>, Seq<u8>)>,
    endpoint: EndpointView,
    chain_id: u64,
    bucket: Option<Seq<char>>,
) -> Stage {
    match credential_in(headers) {
        None => Stage::Done(uncharged(rejection(), Outcome::Malformed)),
        Some(authorization) => start_with(
            OrderView { endpoint, authorization },
            charge_payload(authorization),
            chain_id,
            bucket,
        ),
    }
}

/// Where the flow goes when the payer has been looked up.
pub open spec fn after_screen(chain_id: u64, order: OrderView, answer: HeadAnswer) -> Stage {
    match denial(meaning(answer), rejection()) {
        Some(denied) => Stage::Done(denied),
        None => charging(chain_id, order),
    }
}

/// Where the flow goes when the charge was tried.
pub open spec fn after_charge(order: OrderView, result: Result<Receipt, ChargeFailure>) -> Stage {
    match result {
        Ok(receipt) => Stage::Search(order, receipt),
        Err(ChargeFailure::Unreachable) => Stage::Done(
            uncharged(error_reply(502, NETWORK_UNAVAILABLE@), Outcome::NetworkUnavailable),
        ),
        Err(ChargeFailure::Rejected) => Stage::Done(uncharged(rejection(), Outcome::Refused)),
    }
}

/// Where the flow goes with what the search gave.
pub open spec fn after_search(order: OrderView, receipt: Receipt, reply: ReplyView) -> Stage {
    Stage::Done(
        AnswerView {
            reply: with_receipt(reply, receipt),
            outcome: Outcome::Settled,
            charged: Some(order.endpoint.price_base_units),
        },
    )
}

/// A `402` refusing the payment. Every refusal carries the same message, so a missing,
/// malformed, non-transaction, and rejected credential all read alike.
fn payment_rejected() -> (reply: Reply)
    ensures
        reply@ == rejection(),
{
    json_error(402, REJECTION)
}

/// A `502` for a payment we could not verify because Tempo was unreachable.
fn gateway_error() -> (reply: Reply)
    ensures
        reply@ == error_reply(502, NETWORK_UNAVAILABLE@),
{
    json_error(502, NETWORK_UNAVAILABLE)
}

/// The step that charges an order.
fn charge_step(client: &Client, order: Order) -> (step: Step)
    ensures
        step@ == charging(client.chain_id, order@),
{
    let charge = client.charge(order.endpoint.price_base_units);
    Step::Charge(order, charge)
}

/// Start the pay flow with a credential whose payload was read.
///
/// The transfer's signer is screened before verification, so a blocked payer's transaction
/// is never broadcast and no funds move. Without a screener there is nothing to consult,
/// and the signer is not recovered at all.
pub fn handle_payload(
    client: &Client,
    screener: Option<&RestrictedAddressScreener>,
    order: Order,
    payload: Option<ChargePayload>,
) -> (step: Step)
    ensures
        step@ == start_with(
            order@,
            match payload {
                Some(payload) => Some(payload@),
                None => None,
            },
            client.chain_id,
            bucket_of(screener),
        ),
{
    match payload {
        Some(payload) => {
            if transaction_payload(&payload).is_none() {
                return Step::Done(Answer::uncharged(payment_rejected(), Outcome::Unsupported));
            }
            match screener {
                None => charge_step(client, order),
                Some(screener) => match signer_address(&payload) {
                    None => Step::Done(
                        Answer::uncharged(payment_rejected(), Outcome::ScreenedOut),
                    ),
                    Some(signer) => Step::Screen(order, screener.screen(&signer)),
                },
            }
        },
        None => Step::Done(Answer::uncharged(payment_rejected(), Outcome::Unsupported)),
    }
}

/// Start the MPP pay flow for a request that carries a credential for `endpoint`.
///
/// MPP has no settle-free verification: verifying a credential checks the signed transfer
/// and settles it on Tempo in one call, so the charge lands before the search runs:
///
/// * credential missing, malformed, not a signed transaction, or rejected: `402`, before
///   any upstream call.
/// * Tempo RPC unreachable: `502`.
/// * verified and settled: the search runs, and the response carries the `Payment-Receipt`
///   header whatever its status, because the payment has already settled.
pub fn handle(
    client: &Client,
    screener: Option<&RestrictedAddressScreener>,
    headers: &Headers,
    endpoint: Endpoint,
) -> (step: Step)
    ensures
        step@ == start(headers@, endpoint@, client.chain_id, bucket_of(screener)),
{
    match credential(headers) {
        None => Step::Done(Answer::uncharged(payment_rejected(), Outcome::Malformed)),
        Some(authorization) => {
            let payload = charge_payload_in(&authorization);
            handle_payload(client, screener, Order { endpoint, authorization }, payload)
        },
    }
}

/// Go on when the payer has been looked up.
pub fn screened(client: &Client, order: Order, answer: HeadAnswer) -> (step: Step)
    ensures
        step@ == after_screen(client.chain_id, order@, answer),
{
    match require_allowed(head_key(answer), payment_rejected()) {
        Ok(_) => charge_step(client, order),
        Err(denied) => Step::Done(denied),
    }
}

/// Go on when the charge was tried. A Tempo RPC we cannot reach is our failure, not the
/// client's, so it is a 502 rather than a 402.
pub fn charged(order: Order, result: Result<Receipt, ChargeFailure>) -> (step: Step)
    ensures
        step@ == after_charge(order@, result),
{
    match result {
        Ok(receipt) => Step::Search(order, receipt),
        Err(ChargeFailure::Unreachable) => Step::Done(
            Answer::uncharged(gateway_error(), Outcome::NetworkUnavailable),
        ),
        Err(ChargeFailure::Rejected) => Step::Done(
            Answer::uncharged(payment_rejected(), Outcome::Refused),
        ),
    }
}

/// Go on with what the search gave. The payment has already settled, so the receipt rides
/// on whatever the search returned: the client paid and gets their proof either way. The
/// proof reads back as the receipt.
pub fn searched(order: Order, receipt: Receipt, reply: Reply) -> (step: Step)
    ensures
        step@ == after_search(order@, receipt, reply@),
        receipt_reads_back(receipt),
{
    Step::Done(
        Answer {
            reply: attach_receipt(reply, &receipt),
            outcome: Outcome::Settled,
            charged: Some(order.endpoint.price_base_units),
        },
    )
}

} // verus!
