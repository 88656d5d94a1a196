//! The x402 payment rail: everything specific to x402 lives here.
//!
//! See `mpp_rail.rs` for the MPP rail and `dispatch.rs` for the neutral router that classifies
//! each request and delegates to whichever rail it is paying on.

use serde_json::Value;
use vstd::prelude::*;
use vstd::string::*;
use vstd::utf8::*;
use x402_chain_eip155::chain::ChecksummedAddress;
use x402_chain_eip155::{KnownNetworkEip155, V2Eip155Exact};
use x402_types::networks::USDC;
use x402_types::proto::v2;
use x402_types::util::Base64Bytes;

use crate::endpoints::{described_as, endpoint_description, Endpoint, EndpointView};
use crate::error::{error_reply, json_error};
use crate::http::{
    bytes_of, is_header_byte, is_header_value, is_success, lookup, optional_text,
    set_header_is_read_back, text_of, with_header, Headers, Reply, ReplyView,
};
use crate::json::{
    json_members, json_parse, json_text, json_tree, json_trees, member, names_differ, number_value,
    object_of_one, object_value, parse, read, readable, same, text_in, text_value, tree, write_text,
    Json, Tree,
};
use crate::metrics::PaymentStep;
use crate::payment::{uncharged, Answer, AnswerView, Outcome};
use crate::screener::{
    denial, head_key, key_of, meaning, require_allowed, HeadAnswer, Lookup, LookupView,
    RestrictedAddressScreener,
};
use crate::text::{decimal, hex_digits, is_hex_digits, lower, lowered};

verus! {

/// x402 V2 carries its payment proof in the `PAYMENT-SIGNATURE` request header. V1's
/// `X-PAYMENT` is deliberately not recognized: the service is V2-only, so a V1 client
/// carries no payment we accept and falls through to the cold `402`.
pub const V2_PAYMENT_HEADER: &'static str = "payment-signature";

/// x402 V2 advertises its offers in the `Payment-Required` header of the cold `402`, as
/// base64-encoded JSON.
pub const PAYMENT_REQUIRED_HEADER: &'static str = "payment-required";

/// x402 V2 returns the settlement receipt in the `Payment-Response` response header as
/// base64-encoded JSON, the dual of the `PAYMENT-SIGNATURE` request header.
pub const PAYMENT_RECEIPT_HEADER: &'static str = "payment-response";

/// The EVM treasury address that receives x402 payments (`payTo`).
pub const PAY_TO_EVM: &'static str = "0xbd9420A98a7Bd6B89765e5715e169481602D9c3d";

/// The error line every cold `402` carries.
pub const PAYMENT_REQUIRED: &'static str = "Payment required";

/// Shared message for every refused payment, so refusals are indistinguishable.
pub const GENERIC_REJECTION: &'static str = "x402 payment did not verify";

/// Message for a payment proof that cannot be read.
pub const MALFORMED_PAYMENT: &'static str = "malformed x402 payment payload";

/// Message for a payment that could not be verified because the facilitator was
/// unreachable.
pub const FACILITATOR_UNAVAILABLE: &'static str = "payment facilitator unavailable";

/// Shared message for a payment we could not settle, whether the facilitator declined it
/// or was unreachable, so the client cannot tell the two apart.
pub const SETTLE_FAILED: &'static str = "x402 payment could not be settled";

// Base64.

/// What standard base64 encoding makes of bytes.
pub uninterp spec fn base64_encoded(bytes: Seq<u8>) -> Seq<char>;

/// The bytes that base64 text stands for, or `None` where it is not base64.
pub uninterp spec fn base64_decoded(text: Seq<u8>) -> Option<Seq<u8>>;

/// A character of base64 text.
pub open spec fn is_base64_char(c: char) -> bool {
    'A' <= c <= 'Z' || 'a' <= c <= 'z' || '0' <= c <= '9' || c == '+' || c == '/' || c == '='
}

/// `Base64Bytes::encode` of `x402-types`, written out by its `Display`. Claims that the
/// text depends on the bytes alone, is made of base64 characters, and decodes back to the
/// bytes.
#[verifier::external_body]
fn encode_base64(bytes: &[u8]) -> (text: String)
    ensures
        text@ == base64_encoded(bytes@),
        forall|i: int| 0 <= i < text@.len() ==> is_base64_char(#[trigger] text@[i]),
        base64_decoded(encode_utf8(text@)) == Some(bytes@),
{
    Base64Bytes::encode(bytes).to_string()
}

/// `Base64Bytes::decode` of `x402-types`. Claims that the result depends on the text's
/// bytes alone.
#[verifier::external_body]
fn decode_base64(text: &[u8]) -> (bytes: Option<Vec<u8>>)
    ensures
        match bytes {
            Some(bytes) => base64_decoded(text@) == Some(bytes@),
            None => base64_decoded(text@) is None,
        },
{
    Base64Bytes::from(text).decode().ok()
}

proof fn lemma_base64_is_sendable(text: Seq<char>)
    requires
        forall|i: int| 0 <= i < text.len() ==> is_base64_char(#[trigger] text[i]),
    ensures
        is_header_value(encode_utf8(text)),
{
    assert(is_ascii_chars(text));
    is_ascii_chars_encode_utf8(text);
    let bytes = encode_utf8(text);
    assert forall|i: int| 0 <= i < bytes.len() implies is_header_byte(#[trigger] bytes[i]) by {
        assert(is_base64_char(text[i]));
        assert(text[i] as u8 == bytes[i]);
    }
}

// Offers.

/// Whether `text` is an EVM address in hexadecimal, with or without `0x` before it.
pub open spec fn is_evm_address(text: Seq<char>) -> bool {
    hex_digits(text).len() == 40 && is_hex_digits(hex_digits(text))
}

/// Whether two texts write the same EVM address: the same digits, whatever their case.
pub open spec fn same_address(a: Seq<char>, b: Seq<char>) -> bool {
    is_evm_address(a) && is_evm_address(b) && lowered(hex_digits(a)) == lowered(hex_digits(b))
}

/// Whether the recipient of an offer is this address.
pub open spec fn is_paid_to(offer: Tree, address: Seq<char>) -> bool {
    &&& offer matches Tree::Object(members)
    &&& members.len() > 3
    &&& members[3].0 == "payTo"@
    &&& members[3].1 is Text
    &&& same_address(members[3].1->Text_0, address)
}

/// The checksummed form of an EVM address.
pub uninterp spec fn checksummed(address: Seq<char>) -> Seq<char>;

/// The offer to take `amount` base units of the USDC at `asset` on `network`, paid to
/// `pay_to`.
pub open spec fn offer(
    network: Seq<char>,
    amount: nat,
    pay_to: Seq<char>,
    asset: Seq<char>,
    token: Seq<char>,
) -> Tree {
    Tree::Object(
        seq![
            ("scheme"@, Tree::Text("exact"@)),
            ("network"@, Tree::Text(network)),
            ("amount"@, Tree::Text(decimal(amount))),
            ("payTo"@, Tree::Text(pay_to)),
            ("maxTimeoutSeconds"@, Tree::Number("300"@)),
            ("asset"@, Tree::Text(asset)),
            (
                "extra"@,
                Tree::Object(
                    seq![
                        ("assetTransferMethod"@, Tree::Text("eip3009"@)),
                        ("name"@, Tree::Text(token)),
                        ("version"@, Tree::Text("2"@)),
                    ],
                ),
            ),
        ],
    )
}

/// The offer of real USDC on Base mainnet.
pub open spec fn mainnet_offer(price: u64) -> Tree {
    offer(
        "eip155:8453"@,
        price as nat,
        checksummed(PAY_TO_EVM@),
        "0x833589fCD6eDb6E08f4c7C32D4f71b54bdA02913"@,
        "USD Coin"@,
    )
}

/// The offer of faucet USDC on Base Sepolia.
pub open spec fn testnet_offer(price: u64) -> Tree {
    offer(
        "eip155:84532"@,
        price as nat,
        checksummed(PAY_TO_EVM@),
        "0x036CbD53842c5426634e7929541eC2318f3dCF7e"@,
        "USDC"@,
    )
}

/// The offers we advertise and verify against for a request of this price: real USDC on
/// Base mainnet, plus faucet USDC on Base Sepolia when the testnet is allowed.
pub open spec fn offers(price: u64, allow_testnet: bool) -> Seq<Tree> {
    if allow_testnet {
        seq![mainnet_offer(price), testnet_offer(price)]
    } else {
        seq![mainnet_offer(price)]
    }
}

/// `V2Eip155Exact::price_tag` of `x402-chain-eip155` for `USDC::base()`, its requirements
/// turned into JSON by `serde_json::to_value`. Claims what the requirements say; the
/// checksummed form of the recipient is named; it is the same address, written with capitals
/// of its own. Text that is no address does not parse and is left out.
#[verifier::external_body]
fn base_offer(pay_to: &str, amount: u64) -> (requirements: Value)
    requires
        is_evm_address(pay_to@),
    ensures
        json_tree(requirements) == offer(
            "eip155:8453"@,
            amount as nat,
            checksummed(pay_to@),
            "0x833589fCD6eDb6E08f4c7C32D4f71b54bdA02913"@,
            "USD Coin"@,
        ),
        is_paid_to(json_tree(requirements), pay_to@),
{
    let pay_to: ChecksummedAddress = pay_to.parse().unwrap();
    let tag = V2Eip155Exact::price_tag(pay_to, USDC::base().amount(amount));
    serde_json::to_value(tag.requirements).unwrap()
}

/// `V2Eip155Exact::price_tag` of `x402-chain-eip155` for `USDC::base_sepolia()`, its
/// requirements turned into JSON by `serde_json::to_value`. Claims what the requirements
/// say; the checksummed form of the recipient is named; it is the same address, written with
/// capitals of its own. Text that is no address does not parse and is left out.
#[verifier::external_body]
fn base_sepolia_offer(pay_to: &str, amount: u64) -> (requirements: Value)
    requires
        is_evm_address(pay_to@),
    ensures
        json_tree(requirements) == offer(
            "eip155:84532"@,
            amount as nat,
            checksummed(pay_to@),
            "0x036CbD53842c5426634e7929541eC2318f3dCF7e"@,
            "USDC"@,
        ),
        is_paid_to(json_tree(requirements), pay_to@),
{
    let pay_to: ChecksummedAddress = pay_to.parse().unwrap();
    let tag = V2Eip155Exact::price_tag(pay_to, USDC::base_sepolia().amount(amount));
    serde_json::to_value(tag.requirements).unwrap()
}

proof fn lemma_treasury_is_an_address()
    ensures
        is_evm_address(PAY_TO_EVM@),
{
    reveal_strlit("0xbd9420A98a7Bd6B89765e5715e169481602D9c3d");
    let digits = hex_digits(PAY_TO_EVM@);
    assert(digits.len() == 40);
    assert forall|i: int| 0 <= i < digits.len() implies crate::text::hex_digit(
        #[trigger] digits[i],
    ) is Some by {
        assert(digits[i] == PAY_TO_EVM@[i + 2]);
    }
}

/// Build the list of payment offers we advertise and verify against. The same entries seed
/// both the cold `402` and payment verification, so there is one source of truth for what
/// we charge. Every entry is paid to the treasury.
pub fn accepts(price: u64, allow_testnet: bool) -> (entries: Vec<Value>)
    ensures
        json_trees(entries@) == offers(price, allow_testnet),
        forall|i: int|
            0 <= i < entries@.len() ==> is_paid_to(json_tree(#[trigger] entries@[i]), PAY_TO_EVM@),
{
    proof {
        lemma_treasury_is_an_address();
    }
    let mut entries: Vec<Value> = Vec::new();
    entries.push(base_offer(PAY_TO_EVM, price));
    if allow_testnet {
        entries.push(base_sepolia_offer(PAY_TO_EVM, price));
    }
    assert(json_trees(entries@) == offers(price, allow_testnet));
    entries
}

// The challenge.

/// What a V2 `PaymentRequired` envelope says. Extensions are left out where there are none.
pub open spec fn envelope(
    error: Seq<char>,
    url: Seq<char>,
    description: Seq<char>,
    mime_type: Seq<char>,
    accepts: Seq<Tree>,
    extensions: Seq<(Seq<char>, Tree)>,
) -> Tree {
    let base = seq![
        ("x402Version"@, Tree::Number("2"@)),
        ("error"@, Tree::Text(error)),
        (
            "resource"@,
            Tree::Object(
                seq![
                    ("url"@, Tree::Text(url)),
                    ("description"@, Tree::Text(description)),
                    ("mimeType"@, Tree::Text(mime_type)),
                ],
            ),
        ),
        ("accepts"@, Tree::List(accepts)),
    ];
    Tree::Object(
        if extensions.len() == 0 {
            base
        } else {
            base.push(("extensions"@, Tree::Object(extensions)))
        },
    )
}

/// `v2::PaymentRequired` of `x402-types` with every optional field set, turned into JSON by
/// `serde_json::to_value`. Claims which members the document has, and in which order.
/// Extensions whose names occur twice are left out of the claim.
#[verifier::external_body]
fn payment_required(
    error: &str,
    resource: (&str, &str, &str),
    accepts: &Vec<Value>,
    extensions: Vec<(String, Value)>,
) -> (document: Value)
    requires
        names_differ(json_members(extensions@)),
    ensures
        json_tree(document) == envelope(
            error@,
            resource.0@,
            resource.1@,
            resource.2@,
            json_trees(accepts@),
            json_members(extensions@),
        ),
{
    let info = v2::ResourceInfo {
        url: resource.0.to_owned(),
        description: Some(resource.1.to_owned()),
        mime_type: Some(resource.2.to_owned()),
    };
    let body = v2::PaymentRequired {
        x402_version: v2::X402Version2,
        error: Some(error.to_owned()),
        resource: Some(info),
        accepts: accepts.clone(),
        extensions: extensions.into_iter().collect(),
    };
    serde_json::to_value(body).unwrap()
}

/// The envelope the cold `402` advertises for `resource` at `path`.
pub open spec fn challenge_document(
    accepts: Seq<Tree>,
    resource: Seq<char>,
    path: Seq<char>,
    extensions: Seq<(Seq<char>, Tree)>,
) -> Tree {
    envelope(
        PAYMENT_REQUIRED@,
        resource,
        described_as(path),
        "application/json"@,
        accepts,
        extensions,
    )
}

/// The route binding: the method the request arrived with.
pub open spec fn route_binding(method: Seq<char>) -> Seq<(Seq<char>, Tree)> {
    seq![
        (
            "mppx"@,
            Tree::Object(
                seq![("info"@, Tree::Object(seq![("method"@, Tree::Text(method))]))],
            ),
        ),
    ]
}

/// The JSON that a base64 header value holds.
pub open spec fn read_back(value: Option<Seq<u8>>) -> Option<Tree> {
    match value {
        Some(value) => match base64_decoded(value) {
            Some(bytes) => json_parse(bytes),
            None => None,
        },
        None => None,
    }
}

/// The `Payment-Required` header value of the cold `402`.
pub open spec fn challenge_value(
    accepts: Seq<Tree>,
    resource: Seq<char>,
    path: Seq<char>,
    method: Seq<char>,
) -> Seq<char> {
    base64_encoded(
        encode_utf8(
            json_text(challenge_document(accepts, resource, path, route_binding(method))),
        ),
    )
}

/// The envelope for `resource`, which is served at `path`, with these extensions.
fn required_for(
    accepts: &Vec<Value>,
    resource: &str,
    path: &str,
    extensions: Vec<(String, Value)>,
) -> (document: Value)
    requires
        names_differ(json_members(extensions@)),
    ensures
        json_tree(document) == challenge_document(
            json_trees(accepts@),
            resource@,
            path@,
            json_members(extensions@),
        ),
{
    payment_required(
        PAYMENT_REQUIRED,
        (resource, endpoint_description(path), "application/json"),
        accepts,
        extensions,
    )
}

/// x402's part of the cold `402`: the V2 `PaymentRequired` envelope for `resource`, which
/// is served at `path`.
pub fn challenge(accepts: &Vec<Value>, resource: &str, path: &str) -> (document: Value)
    ensures
        json_tree(document) == challenge_document(
            json_trees(accepts@),
            resource@,
            path@,
            Seq::empty(),
        ),
{
    let extensions: Vec<(String, Value)> = Vec::new();
    assert(json_members(extensions@) == Seq::<(Seq<char>, Tree)>::empty());
    required_for(accepts, resource, path, extensions)
}

/// The envelope as the cold `402` sends it: with the method the request arrived with bound
/// to it, base64-encoded for the `Payment-Required` header.
pub fn challenge_header(
    accepts: &Vec<Value>,
    resource: &str,
    path: &str,
    method: &str,
) -> (value: String)
    ensures
        value@ == challenge_value(json_trees(accepts@), resource@, path@, method@),
        is_header_value(encode_utf8(value@)),
        readable(
            challenge_document(json_trees(accepts@), resource@, path@, route_binding(method@)),
            127,
        ) ==> read_back(Some(encode_utf8(value@))) == Some(
            challenge_document(json_trees(accepts@), resource@, path@, route_binding(method@)),
        ),
{
    let info = object_of_one("method", text_value(method));
    let binding = object_of_one("info", info);
    let mut extensions: Vec<(String, Value)> = Vec::new();
    extensions.push(("mppx".to_owned(), binding));
    assert(json_members(extensions@) == route_binding(method@));
    let document = required_for(accepts, resource, path, extensions);
    let text = write_text(&document);
    let value = encode_base64(text.as_str().as_bytes());
    proof {
        lemma_base64_is_sendable(value@);
    }
    value
}

// The payment proof.

/// Whether the request carries an x402 V2 payment proof.
pub fn has_payment(headers: &Headers) -> (present: bool)
    ensures
        present == lookup(headers@, V2_PAYMENT_HEADER@) is Some,
{
    headers.contains_key(V2_PAYMENT_HEADER)
}

/// The first of `entries` that says the same as `chosen`.
pub open spec fn first_match(entries: Seq<Tree>, chosen: Tree) -> Option<int>
    decreases entries.len(),
{
    if entries.len() == 0 {
        None
    } else if same(entries[0], chosen) {
        Some(0)
    } else {
        match first_match(entries.drop_first(), chosen) {
            Some(i) => Some(i + 1),
            None => None,
        }
    }
}

/// Which of `entries` a payment payload accepts: its `accepted` member, matched verbatim.
pub open spec fn accepted_entry(payload: Tree, entries: Seq<Tree>) -> Option<int> {
    match member(payload, "accepted"@) {
        Some(chosen) => first_match(entries, chosen),
        None => None,
    }
}

/// The payer a payment payload names: the eip3009 `authorization.from`, in lower case.
pub open spec fn payer_in(payload: Tree) -> Option<Seq<char>> {
    match member(payload, "payload"@) {
        Some(scheme) => match member(scheme, "authorization"@) {
            Some(authorization) => match text_in(member(authorization, "from"@)) {
                Some(from) => Some(lowered(from)),
                None => None,
            },
            None => None,
        },
        None => None,
    }
}

/// What the facilitator is asked to verify and to settle.
pub open spec fn facilitator_request(payload: Tree, requirements: Tree) -> Tree {
    Tree::Object(
        seq![
            ("x402Version"@, Tree::Number("2"@)),
            ("paymentPayload"@, payload),
            ("paymentRequirements"@, requirements),
        ],
    )
}

/// The JSON payload of the `PAYMENT-SIGNATURE` header.
pub open spec fn payload_in(headers: Seq<(Seq<char>, Seq<u8>)>) -> Option<Tree> {
    match text_of(headers, V2_PAYMENT_HEADER@) {
        Some(text) => match base64_decoded(encode_utf8(text)) {
            Some(bytes) => json_parse(bytes),
            None => None,
        },
        None => None,
    }
}

/// A payment proof that was read: the request for the facilitator, and the payer to
/// screen.
#[derive(Debug)]
pub struct Payment {
    pub request: String,
    pub payer: Option<String>,
}

/// The mathematical value of a [`Payment`].
#[verifier::ext_equal]
pub struct PaymentView {
    pub request: Seq<char>,
    pub payer: Option<Seq<char>>,
}

impl View for Payment {
    type V = PaymentView;

    open spec fn view(&self) -> PaymentView {
        PaymentView { request: self.request@, payer: optional_text(self.payer) }
    }
}

/// The payment that a payload makes against the advertised `entries`.
pub open spec fn payment_by(payload: Tree, entries: Seq<Tree>) -> Option<PaymentView> {
    match accepted_entry(payload, entries) {
        Some(i) => Some(
            PaymentView {
                request: json_text(facilitator_request(payload, entries[i])),
                payer: payer_in(payload),
            },
        ),
        None => None,
    }
}

/// The payment that headers carry against the advertised `entries`.
pub open spec fn payment_in(
    headers: Seq<(Seq<char>, Seq<u8>)>,
    entries: Seq<Tree>,
) -> Option<PaymentView> {
    match payload_in(headers) {
        Some(payload) => payment_by(payload, entries),
        None => None,
    }
}

/// The documents in a list.
pub open spec fn trees(items: Seq<Json>) -> Seq<Tree> {
    Seq::new(items.len(), |i: int| tree(items[i]))
}

/// Which of the advertised `entries` the payload accepts. The payload names the offer the
/// payer accepted; only an entry matched verbatim counts, so a payer cannot write their
/// own price, asset, or recipient.
pub fn find_accepted(payload: &Json, entries: &Vec<Json>) -> (found: Option<usize>)
    ensures
        match found {
            Some(i) => i < entries@.len() && accepted_entry(tree(*payload), trees(entries@))
                == Some(i as int),
            None => accepted_entry(tree(*payload), trees(entries@)) is None,
        },
{
    match payload.get("accepted") {
        Some(chosen) => {
            let ghost all = trees(entries@);
            let mut i: usize = 0;
            assert(all.subrange(0, all.len() as int) == all);
            while i < entries.len()
                invariant
                    i <= entries@.len() == all.len(),
                    all == trees(entries@),
                    member(tree(*payload), "accepted"@) == Some(tree(*chosen)),
                    match first_match(all.subrange(i as int, all.len() as int), tree(*chosen)) {
                        Some(k) => first_match(all, tree(*chosen)) == Some(i + k),
                        None => first_match(all, tree(*chosen)) is None,
                    },
                decreases entries@.len() - i,
            {
                let ghost rest = all.subrange(i as int, all.len() as int);
                assert(rest[0] == tree(entries@[i as int]));
                assert(rest.drop_first() == all.subrange(i + 1, all.len() as int));
                if entries[i].same(chosen) {
                    return Some(i);
                }
                i = i + 1;
            }
            None
        },
        None => None,
    }
}

/// The payer to screen: the eip3009 `authorization.from`, lowercased to the screener's
/// canonical form (EVM addresses are case-insensitive hex). `None` when the payload has no
/// such field.
pub fn payer_address(payload: &Json) -> (payer: Option<String>)
    ensures
        optional_text(payer) == payer_in(tree(*payload)),
{
    match payload.get("payload") {
        Some(scheme) => match scheme.get("authorization") {
            Some(authorization) => match authorization.get("from") {
                Some(from) => match from.as_str() {
                    Some(from) => Some(lower(from)),
                    None => None,
                },
                None => None,
            },
            None => None,
        },
        None => None,
    }
}

/// Decode the client's base64 JSON payment payload from `PAYMENT-SIGNATURE` into the
/// facilitator's verify/settle request and the payer to screen. Returns `None` if the
/// header is absent, not the base64 JSON required, or accepts an offer we do not
/// advertise.
///
/// The payer is `Some` only for the eip3009 payload we advertise; a payload without
/// `authorization.from` (e.g. a permit2 shape) yields `None`, which the caller rejects
/// before any facilitator call when screening is on.
pub fn decode_payment(headers: &Headers, accepts: Vec<Value>) -> (payment: Option<Payment>)
    ensures
        match payment {
            Some(payment) => payment_in(headers@, json_trees(accepts@)) == Some(payment@),
            None => payment_in(headers@, json_trees(accepts@)) is None,
        },
{
    let header = headers.text(V2_PAYMENT_HEADER)?;
    let decoded = decode_base64(header.as_str().as_bytes())?;
    let payload = parse(&decoded)?;
    let plain = read(&payload);
    let mut entries: Vec<Json> = Vec::new();
    let mut i: usize = 0;
    while i < accepts.len()
        invariant
            i <= accepts@.len(),
            trees(entries@) == json_trees(accepts@).subrange(0, i as int),
        decreases accepts@.len() - i,
    {
        let ghost before = entries@;
        let entry = read(&accepts[i]);
        entries.push(entry);
        assert(trees(entries@) == trees(before).push(json_tree(accepts@[i as int])));
        i = i + 1;
    }
    assert(trees(entries@) == json_trees(accepts@));
    let found: usize = find_accepted(&plain, &entries)?;
    let payer = payer_address(&plain);
    let mut accepts = accepts;
    let accepted = accepts.swap_remove(found);
    let body = facilitator_body(payload, accepted);
    Some(Payment { request: write_text(&body), payer })
}

/// The document the facilitator verifies and settles.
fn facilitator_body(payload: Value, requirements: Value) -> (body: Value)
    ensures
        json_tree(body) == facilitator_request(json_tree(payload), json_tree(requirements)),
{
    let mut members: Vec<(String, Value)> = Vec::new();
    members.push(("x402Version".to_owned(), number_value(2)));
    members.push(("paymentPayload".to_owned(), payload));
    members.push(("paymentRequirements".to_owned(), requirements));
    proof {
        reveal_strlit("x402Version");
        reveal_strlit("paymentPayload");
        reveal_strlit("paymentRequirements");
        reveal_strlit("2");
        assert(decimal(2) == "2"@);
        let all = json_members(members@);
        assert(all[0].0.len() == 11 && all[1].0.len() == 14 && all[2].0.len() == 19);
        assert(all == facilitator_request(json_tree(payload), json_tree(requirements))->Object_0);
    }
    object_value(members)
}

// The pay flow.

/// The x402 rail of a deployment: which offers it advertises.
#[derive(Debug, Clone, Copy, PartialEq, Eq, Structural)]
pub struct Client {
    pub allow_testnet: bool,
}

/// What the client is buying, and the request that has the facilitator verify and settle
/// the payment for it.
#[derive(Debug)]
pub struct Order {
    pub endpoint: Endpoint,
    pub request: String,
}

/// The mathematical value of an [`Order`].
#[verifier::ext_equal]
pub struct OrderView {
    pub endpoint: EndpointView,
    pub request: Seq<char>,
}

impl View for Order {
    type V = OrderView;

    open spec fn view(&self) -> OrderView {
        OrderView { endpoint: self.endpoint@, request: self.request@ }
    }
}

/// What the pay flow does next. Each step but the last is one call to the outside, whose
/// answer goes to the function that the step names.
pub enum Step {
    /// Look the payer up in the restricted list, then [`screened`].
    Screen(Order, Lookup),
    /// Have the facilitator verify the order's request, then [`verified`].
    Verify(Order),
    /// Run the search, then [`searched`].
    Search(Order),
    /// Have the facilitator settle the order's request, then [`settled`]. The reply the
    /// search gave is held back until that is done.
    Settle(Order, Reply),
    /// Answer the client.
    Done(Answer),
}

/// The mathematical value of a [`Step`].
#[verifier::ext_equal]
pub enum Stage {
    Screen(OrderView, LookupView),
    Verify(OrderView),
    Search(OrderView),
    Settle(OrderView, ReplyView),
    Done(AnswerView),
}

impl View for Step {
    type V = Stage;

    open spec fn view(&self) -> Stage {
        match self {
            Step::Screen(order, lookup) => Stage::Screen(order@, lookup@),
            Step::Verify(order) => Stage::Verify(order@),
            Step::Search(order) => Stage::Search(order@),
            Step::Settle(order, reply) => Stage::Settle(order@, reply@),
            Step::Done(answer) => Stage::Done(answer@),
        }
    }
}

/// The step of a payment that a stage waits for, where it is one that is timed.
pub open spec fn timed_at(stage: Stage) -> Option<PaymentStep> {
    match stage {
        Stage::Verify(_) => Some(PaymentStep::Verify),
        Stage::Settle(..) => Some(PaymentStep::Settle),
        _ => None,
    }
}

impl Step {
    /// The step of a payment that this waits for, where it is one that is timed.
    pub fn payment_step(&self) -> (step: Option<PaymentStep>)
        ensures
            step == timed_at(self@),
    {
        match self {
            Step::Verify(_) => Some(PaymentStep::Verify),
            Step::Settle(_, _) => Some(PaymentStep::Settle),
            _ => None,
        }
    }
}

/// A `402` telling the client their x402 payment was missing, malformed, or rejected.
pub open spec fn rejection(detail: Seq<char>) -> ReplyView {
    error_reply(402, detail)
}

/// Whether a facilitator's response says `true` in `field`.
pub open spec fn confirms(response: Tree, field: Seq<char>) -> bool {
    member(response, field) == Some(Tree::Bool(true))
}

/// The `Payment-Response` header value for a receipt.
pub open spec fn receipt_value(receipt: Tree) -> Seq<char> {
    base64_encoded(encode_utf8(json_text(receipt)))
}

/// A reply with the settlement receipt on it.
pub open spec fn with_receipt(reply: ReplyView, receipt: Tree) -> ReplyView {
    with_header(reply, PAYMENT_RECEIPT_HEADER@, encode_utf8(receipt_value(receipt)))
}

/// Where the flow starts for a request with these headers, with the screener's bucket
/// where there is a screener.
pub open spec fn start(
    headers: Seq<(Seq<char>, Seq<u8>)>,
    endpoint: EndpointView,
    allow_testnet: bool,
    bucket: Option<Seq<char>>,
) -> Stage {
    match payment_in(headers, offers(endpoint.price_base_units, allow_testnet)) {
        None => Stage::Done(uncharged(rejection(MALFORMED_PAYMENT@), Outcome::Malformed)),
        Some(payment) => {
            let order = OrderView { endpoint, request: payment.request };
            match (bucket, payment.payer) {
                (None, _) => Stage::Verify(order),
                (Some(_), None) => Stage::Done(
                    uncharged(rejection(GENERIC_REJECTION@), Outcome::ScreenedOut),
                ),
                (Some(bucket), Some(payer)) => Stage::Screen(
                    order,
                    LookupView { bucket, key: key_of(payer) },
                ),
            }
        },
    }
}

/// Where the flow goes when the payer has been looked up.
pub open spec fn after_screen(order: OrderView, answer: HeadAnswer) -> Stage {
    match denial(meaning(answer), rejection(GENERIC_REJECTION@)) {
        Some(denied) => Stage::Done(denied),
        None => Stage::Verify(order),
    }
}

/// Where the flow goes when the facilitator found the payment valid or not, or could not be
/// reached.
pub open spec fn after_verdict(order: OrderView, valid: Option<bool>) -> Stage {
    match valid {
        None => Stage::Done(
            uncharged(
                error_reply(502, FACILITATOR_UNAVAILABLE@),
                Outcome::NetworkUnavailable,
            ),
        ),
        Some(true) => Stage::Search(order),
        Some(false) => Stage::Done(uncharged(rejection(GENERIC_REJECTION@), Outcome::Refused)),
    }
}

/// Where the flow goes with the facilitator's verification, or without one where the
/// facilitator could not be reached.
pub open spec fn after_verify(order: OrderView, response: Option<Tree>) -> Stage {
    after_verdict(
        order,
        match response {
            Some(response) => Some(confirms(response, "isValid"@)),
            None => None,
        },
    )
}

/// Where the flow goes with what the search gave.
pub open spec fn after_search(order: OrderView, reply: ReplyView) -> Stage {
    if is_success(reply.status) {
        Stage::Settle(order, reply)
    } else {
        Stage::Done(uncharged(reply, Outcome::UpstreamFailed))
    }
}

/// Where the flow goes when the payment settled, with the receipt's header value, or did
/// not.
pub open spec fn after_receipt(
    order: OrderView,
    reply: ReplyView,
    receipt: Option<Seq<char>>,
) -> Stage {
    match receipt {
        Some(value) => Stage::Done(
            AnswerView {
                reply: with_header(reply, PAYMENT_RECEIPT_HEADER@, encode_utf8(value)),
                outcome: Outcome::Settled,
                charged: Some(order.endpoint.price_base_units),
            },
        ),
        None => Stage::Done(uncharged(error_reply(502, SETTLE_FAILED@), Outcome::SettleFailed)),
    }
}

/// Where the flow goes with the facilitator's settlement, or without one where the
/// facilitator could not be reached.
pub open spec fn after_settle(
    order: OrderView,
    reply: ReplyView,
    response: Option<Tree>,
) -> Stage {
    after_receipt(
        order,
        reply,
        match response {
            Some(receipt) => if confirms(receipt, "success"@) {
                Some(receipt_value(receipt))
            } else {
                None
            },
            None => None,
        },
    )
}

/// The view of a facilitator's response, where there is one.
pub open spec fn response_view(response: Option<Value>) -> Option<Tree> {
    match response {
        Some(response) => Some(json_tree(response)),
        None => None,
    }
}

/// The bucket of a screener, where there is one.
pub open spec fn bucket_of(screener: Option<&RestrictedAddressScreener>) -> Option<Seq<char>> {
    match screener {
        Some(screener) => Some(screener.bucket@),
        None => None,
    }
}

/// A `402` telling the client their x402 payment was missing, malformed, or rejected.
fn payment_rejected(detail: &str) -> (reply: Reply)
    ensures
        reply@ == rejection(detail@),
{
    json_error(402, detail)
}

/// A `502` for a payment we could neither verify nor settle through the facilitator.
fn gateway_error(detail: &str) -> (reply: Reply)
    ensures
        reply@ == error_reply(502, detail@),
{
    json_error(502, detail)
}

/// A verify response confirms the payment when `isValid` is true. Shape:
///
/// ```json
/// { "isValid": true,  "payer": "0x09e0…2c1f" }
/// { "isValid": false, "invalidReason": "insufficient_funds", "payer": "0x09e0…2c1f" }
/// ```
pub fn is_valid(response: &Json) -> (valid: bool)
    ensures
        valid == confirms(tree(*response), "isValid"@),
{
    match response.get("isValid") {
        Some(value) => value.is_true(),
        None => false,
    }
}

/// A settle response confirms settlement when `success` is true. Shape:
///
/// ```json
/// { "success": true,  "payer": "0x09e0…2c1f", "transaction": "0x4f2b…9ad3", "network": "eip155:84532" }
/// { "success": false, "error_reason": "insufficient_funds", "network": "eip155:84532" }
/// ```
pub fn is_settled(response: &Json) -> (settled: bool)
    ensures
        settled == confirms(tree(*response), "success"@),
{
    match response.get("success") {
        Some(value) => value.is_true(),
        None => false,
    }
}

/// The base64 `Payment-Response` header value for a receipt. It decodes back to the receipt,
/// as far down as JSON is read.
fn receipt_header(receipt: &Value) -> (value: String)
    ensures
        value@ == receipt_value(json_tree(*receipt)),
        is_header_value(encode_utf8(value@)),
        readable(json_tree(*receipt), 127) ==> read_back(Some(encode_utf8(value@))) == Some(
            json_tree(*receipt),
        ),
{
    let text = write_text(receipt);
    let value = encode_base64(text.as_str().as_bytes());
    proof {
        lemma_base64_is_sendable(value@);
    }
    value
}

/// Attach the settlement receipt's header value as the `Payment-Response` header the client
/// reads back, leaving status and body untouched.
pub fn attach_receipt(reply: Reply, value: &str) -> (receipted: Reply)
    ensures
        receipted@ == with_header(reply@, PAYMENT_RECEIPT_HEADER@, encode_utf8(value@)),
{
    let mut receipted = reply;
    receipted.headers.insert(PAYMENT_RECEIPT_HEADER, bytes_of(value));
    receipted
}

/// Start the x402 pay flow for a request that carries a payment proof for `endpoint`:
/// screen the payer, verify, run the search, then settle, each step gating the next. It
/// fails closed, so a caller is never charged for a response they don't get nor served one
/// they didn't pay for:
///
/// * payment missing, malformed, or rejected: `402`, before any upstream call.
/// * facilitator unreachable on verify: `502`.
/// * search fails (4xx or 5xx): relayed as is, settlement skipped.
/// * settlement fails: `502`, the response body withheld.
///
/// The payer is screened before any facilitator or upstream call, so a blocked signer
/// touches neither.
pub fn handle(
    client: &Client,
    screener: Option<&RestrictedAddressScreener>,
    headers: &Headers,
    endpoint: Endpoint,
) -> (step: Step)
    ensures
        step@ == start(headers@, endpoint@, client.allow_testnet, bucket_of(screener)),
{
    let entries = accepts(endpoint.price_base_units, client.allow_testnet);
    match decode_payment(headers, entries) {
        None => Step::Done(
            Answer::uncharged(payment_rejected(MALFORMED_PAYMENT), Outcome::Malformed),
        ),
        Some(payment) => {
            let order = Order { endpoint, request: payment.request };
            match screener {
                None => Step::Verify(order),
                Some(screener) => match payment.payer {
                    None => Step::Done(
                        Answer::uncharged(
                            payment_rejected(GENERIC_REJECTION),
                            Outcome::ScreenedOut,
                        ),
                    ),
                    Some(payer) => Step::Screen(order, screener.screen(&payer)),
                },
            }
        },
    }
}

/// Go on when the payer has been looked up.
pub fn screened(order: Order, answer: HeadAnswer) -> (step: Step)
    ensures
        step@ == after_screen(order@, answer),
{
    match require_allowed(head_key(answer), payment_rejected(GENERIC_REJECTION)) {
        Ok(_) => Step::Verify(order),
        Err(denied) => Step::Done(denied),
    }
}

/// Go on when the facilitator found the payment valid or not, or with `None` where it could
/// not be reached. That is our failure, not the client's, so it is a 502 rather than a 402.
pub fn judged(order: Order, valid: Option<bool>) -> (step: Step)
    ensures
        step@ == after_verdict(order@, valid),
{
    match valid {
        None => Step::Done(
            Answer::uncharged(
                gateway_error(FACILITATOR_UNAVAILABLE),
                Outcome::NetworkUnavailable,
            ),
        ),
        Some(true) => Step::Search(order),
        Some(false) => Step::Done(
            Answer::uncharged(payment_rejected(GENERIC_REJECTION), Outcome::Refused),
        ),
    }
}

/// Go on with the facilitator's verification, or with `None` where the facilitator could
/// not be reached.
pub fn verified(order: Order, response: Option<Value>) -> (step: Step)
    ensures
        step@ == after_verify(order@, response_view(response)),
{
    match response {
        None => judged(order, None),
        Some(response) => judged(order, Some(is_valid(&read(&response)))),
    }
}

/// Go on with what the search gave.
pub fn searched(order: Order, reply: Reply) -> (step: Step)
    ensures
        step@ == after_search(order@, reply@),
{
    if reply.is_success() {
        Step::Settle(order, reply)
    } else {
        Step::Done(Answer::uncharged(reply, Outcome::UpstreamFailed))
    }
}

/// Go on when the payment settled, with the receipt's header value, or with `None` where it
/// did not. The reply the search gave is withheld unless the payment settled.
pub fn receipted(order: Order, reply: Reply, receipt: Option<String>) -> (step: Step)
    ensures
        step@ == after_receipt(order@, reply@, optional_text(receipt)),
{
    match receipt {
        Some(value) => Step::Done(
            Answer {
                reply: attach_receipt(reply, &value),
                outcome: Outcome::Settled,
                charged: Some(order.endpoint.price_base_units),
            },
        ),
        None => Step::Done(
            Answer::uncharged(gateway_error(SETTLE_FAILED), Outcome::SettleFailed),
        ),
    }
}

/// Go on with the facilitator's settlement, or with `None` where the facilitator could not
/// be reached. The receipt that a settled payment is answered with reads back as what the
/// facilitator said, as far down as JSON is read.
pub fn settled(order: Order, reply: Reply, response: Option<Value>) -> (step: Step)
    ensures
        step@ == after_settle(order@, reply@, response_view(response)),
        response_view(response) matches Some(receipt) ==> confirms(receipt, "success"@)
            && readable(receipt, 127) ==> step@ is Done && read_back(
            lookup(step@->Done_0.reply.headers, PAYMENT_RECEIPT_HEADER@),
        ) == Some(receipt),
{
    match response {
        Some(receipt) => {
            if is_settled(&read(&receipt)) {
                let value = receipt_header(&receipt);
                proof {
                    set_header_is_read_back(
                        reply@.headers,
                        PAYMENT_RECEIPT_HEADER@,
                        encode_utf8(value@),
                        PAYMENT_RECEIPT_HEADER@,
                    );
                }
                receipted(order, reply, Some(value))
            } else {
                receipted(order, reply, None)
            }
        },
        None => receipted(order, reply, None),
    }
}

} // verus!
