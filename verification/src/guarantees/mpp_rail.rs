//! What the MPP rail guarantees: which chain it serves, what it charges, which credentials it
//! takes, and how each step of its pay flow goes on.

use mpp::Receipt;
use serde_json::Value;
use vstd::prelude::*;
use vstd::utf8::*;

use crate::config::MppConfig;
use crate::endpoints::{Endpoint, EndpointView};
use crate::error::AppError;
use crate::guarantees::documents::{holds, lemma_member};
use crate::guarantees::headers::{
    has, is_absent, lemma_lookup, lemma_text, says, setting_a_header_replaces_its_name_alone,
};
use crate::guarantees::replies::lemma_one_header;
use crate::guarantees::texts::{decimal_writes_the_number, writes};
use crate::guarantees::x402_rail::{is_reply_with, refuses, same_endpoint};
use crate::http::{Header, Headers, Reply};
use crate::json::{json_text, json_tree, member, tree, Json, Tree};
use crate::laws::{mpp_answer, mpp_charging, mpp_comes_through, mpp_searching, MppWorld};
use crate::metrics::PaymentStep;
use crate::mpp_rail;
use crate::mpp_rail::{
    advertised, chain_id_text, charge_payload, credential_in, is_credential, minted,
    receipt_document, receipt_in, transaction_signer, Challenge, Charge, ChargeFailure,
    ChargePayload, Client, Order, PayloadView, Step, TempoNetwork,
};
use crate::payment::{Answer, Outcome};
use crate::screener::{base64url, HeadAnswer, RestrictedAddressScreener};
use crate::text::{decimal, hex_bytes, hex_digit, hex_number};

verus! {

// The chain and the charge.

/// The rail serves Tempo mainnet, and its testnet only where testnets are allowed; every
/// other chain is refused, and each refusal names the chain.
pub proof fn only_tempo_is_served(
    rail: &MppConfig,
    chain_id: u64,
    allow_testnet: bool,
    built: Result<Client, AppError>,
)
    requires
        call_ensures(mpp_rail::client, (rail, chain_id, allow_testnet), built),
    ensures
        built is Ok <==> chain_id == 4217 || (chain_id == 42431 && allow_testnet),
        match built {
            Ok(client) => client.chain_id == chain_id && client.secret_key@ == rail.secret_key@,
            Err(err) => exists|digits: Seq<char>|
                #![trigger writes(digits, chain_id as int)]
                {
                    &&& writes(digits, chain_id as int)
                    &&& err matches AppError::InvalidConfig(detail)
                    &&& detail@ == if chain_id == 42431 {
                        "MPP_RPC_URL: chain "@ + digits
                            + " is a testnet; set ALLOW_TESTNET=true to accept it"@
                    } else {
                        "MPP: unsupported Tempo chain "@ + digits
                    }
                },
        },
{
    decimal_writes_the_number(chain_id as nat);
    if let Err(err) = built {
        assert(writes(decimal(chain_id as nat), chain_id as int));
        assert(err@ is InvalidConfig);
        assert(err is InvalidConfig);
    }
}

/// The two Tempo networks are told by their chain ids, and no other chain is one.
pub proof fn a_network_is_told_by_its_chain(chain_id: u64, network: Option<TempoNetwork>)
    requires
        call_ensures(TempoNetwork::from_chain_id, (chain_id,), network),
    ensures
        network == Some(TempoNetwork::Mainnet) <==> chain_id == 4217,
        network == Some(TempoNetwork::Moderato) <==> chain_id == 42431,
{
}

/// Whether a charge takes this many base units of pathUSD on this chain, to the treasury.
pub open spec fn takes(charge: Charge, chain_id: u64, units: u64) -> bool {
    &&& writes(charge.amount@, units as int)
    &&& charge.currency@ == "0x20c0000000000000000000000000000000000000"@
    &&& charge.recipient@ == "0xbd9420A98a7Bd6B89765e5715e169481602D9c3d"@
    &&& charge.chain_id == chain_id
}

/// A request is charged its price, in pathUSD on the rail's own chain, to the treasury.
pub proof fn a_request_is_charged_its_price(client: &Client, price: u64, charge: Charge)
    requires
        call_ensures(Client::charge, (client, price), charge),
    ensures
        takes(charge, client.chain_id, price),
{
    decimal_writes_the_number(price as nat);
}

/// Whether a document asks for this many base units of pathUSD on this chain, to the
/// treasury.
pub open spec fn asks(request: Tree, chain_id: u64, units: u64) -> bool {
    exists|amount: Seq<char>, chain: Seq<char>|
        {
            &&& #[trigger] writes(amount, units as int)
            &&& #[trigger] writes(chain, chain_id as int)
            &&& request == Tree::Object(
                seq![
                    ("amount"@, Tree::Text(amount)),
                    ("currency"@, Tree::Text("0x20c0000000000000000000000000000000000000"@)),
                    (
                        "methodDetails"@,
                        Tree::Object(seq![("chainId"@, Tree::Number(chain))]),
                    ),
                    ("recipient"@, Tree::Text("0xbd9420A98a7Bd6B89765e5715e169481602D9c3d"@)),
                ],
            )
        }
}

/// Whether a header reads back as our challenge for a price: our realm, the method and intent
/// of the rail, the price, and the time of expiry, under an id.
pub open spec fn challenges(
    header: Seq<char>,
    chain_id: u64,
    units: u64,
    expires: Seq<char>,
) -> bool {
    &&& advertised(header) matches Some(read)
    &&& read.id.len() > 0
    &&& read.realm == "bx402"@
    &&& read.method == "tempo"@
    &&& read.intent == "charge"@
    &&& asks(read.request, chain_id, units)
    &&& read.expires == Some(expires)
}

pub(crate) proof fn lemma_challenges(
    header: Seq<char>,
    chain_id: u64,
    units: u64,
    expires: Seq<char>,
)
    requires
        mpp_rail::is_our_challenge(header, mpp_rail::charge_on(chain_id, units), expires),
    ensures
        challenges(header, chain_id, units, expires),
{
    decimal_writes_the_number(units as nat);
    decimal_writes_the_number(chain_id as nat);
    assert(writes(decimal(units as nat), units as int));
    assert(writes(decimal(chain_id as nat), chain_id as int));
}

/// A challenge is of the `Payment` scheme, and reads back as the price that a credential is
/// charged, until the time it was given. Only a line break keeps it from being made.
pub proof fn a_challenge_asks_for_the_price(
    client: &Client,
    price: u64,
    expires: &str,
    header: Option<String>,
)
    requires
        call_ensures(Client::challenge, (client, price, expires), header),
    ensures
        header is None <==> expires@.contains('\r') || expires@.contains('\n'),
        header matches Some(header) ==> header@.len() >= 8 && header@.subrange(0, 8)
            == "Payment "@,
        client.chain_id <= 0x1f_ffff_ffff_ffff && crate::text::is_utc_timestamp(expires@)
            ==> header is Some && challenges(header->0@, client.chain_id, price, expires@),
{
    reveal_strlit("Payment ");
    if client.chain_id <= 0x1f_ffff_ffff_ffff && crate::text::is_utc_timestamp(expires@) {
        lemma_challenges(header->0@, client.chain_id, price, expires@);
    }
}

/// A challenge is signed with the rail's own secret, over the realm, the price, and the time
/// it was given, whatever that time is.
pub proof fn a_challenge_is_signed_with_the_secret(
    client: &Client,
    price: u64,
    expires: &str,
    header: Option<String>,
)
    requires
        call_ensures(Client::challenge, (client, price, expires), header),
    ensures
        exists|request: Tree|
            {
                &&& #[trigger] asks(request, client.chain_id, price)
                &&& match header {
                    Some(header) => minted(
                        client.secret_key@,
                        "bx402"@,
                        "tempo"@,
                        "charge"@,
                        request,
                        expires@,
                    ) == Some(header@),
                    None => minted(
                        client.secret_key@,
                        "bx402"@,
                        "tempo"@,
                        "charge"@,
                        request,
                        expires@,
                    ) is None,
                }
            },
{
    let request = mpp_rail::charge_document(mpp_rail::charge_on(client.chain_id, price));
    decimal_writes_the_number(price as nat);
    decimal_writes_the_number(client.chain_id as nat);
    assert(writes(decimal(price as nat), price as int));
    assert(writes(decimal(client.chain_id as nat), client.chain_id as int));
    assert(asks(request, client.chain_id, price));
}

/// What a client reads of a challenge or of a receipt is what stands in the header.
pub proof fn a_header_is_read_for_what_it_holds(
    header: &str,
    challenge: Option<Challenge>,
    receipt: Option<Receipt>,
)
    requires
        call_ensures(mpp_rail::read_challenge, (header,), challenge),
        call_ensures(mpp_rail::read_receipt, (header,), receipt),
    ensures
        challenge is Some <==> advertised(header@) is Some,
        challenge matches Some(own) ==> {
            let read = advertised(header@)->0;
            &&& read.id == own.id@ && read.realm == own.realm@ && read.method == own.method@
            &&& read.intent == own.intent@ && read.request == json_tree(own.request)
            &&& read.expires is Some <==> own.expires is Some
            &&& own.expires matches Some(expires) ==> read.expires == Some(expires@)
        },
        receipt is Some <==> receipt_in(header@) is Some,
        receipt matches Some(own) ==> receipt_in(header@) == Some(receipt_document(own)),
{
}

// The chain id that an endpoint reports.

/// The value of a hexadecimal digit, by its code point; -1 where it is none.
pub open spec fn digit_value(c: char) -> int {
    let point = c as int;
    if 48 <= point <= 57 {
        point - 48
    } else if 97 <= point <= 102 {
        point - 87
    } else if 65 <= point <= 70 {
        point - 55
    } else {
        -1
    }
}

/// The number that hexadecimal digits write from the `i`-th on, each place worth sixteen
/// times the next.
pub open spec fn hex_value(digits: Seq<char>) -> int
    decreases digits.len(),
{
    if digits.len() == 0 {
        0
    } else {
        hex_value(digits.drop_last()) * 16 + digit_value(digits.last())
    }
}

/// Whether text writes a number in hexadecimal: `0x`, a plus sign or none, and digits.
pub open spec fn writes_hex(text: Seq<char>, n: int) -> bool {
    exists|digits: Seq<char>|
        {
            &&& #[trigger] hex_value(digits) == n
            &&& digits.len() > 0
            &&& forall|i: int| 0 <= i < digits.len() ==> digit_value(#[trigger] digits[i]) >= 0
            &&& text == seq!['0', 'x'] + digits || text == seq!['0', 'x', '+'] + digits
        }
}

proof fn lemma_hex_number(digits: Seq<char>)
    ensures
        match hex_number(digits) {
            Some(n) => n == hex_value(digits) && forall|i: int|
                0 <= i < digits.len() ==> digit_value(#[trigger] digits[i]) >= 0,
            None => exists|i: int| 0 <= i < digits.len() && digit_value(#[trigger] digits[i]) < 0,
        },
    decreases digits.len(),
{
    if digits.len() > 0 {
        let rest = digits.drop_last();
        lemma_hex_number(rest);
        assert(hex_digit(digits.last()) matches Some(d) ==> d == digit_value(digits.last()));
        assert(hex_digit(digits.last()) is None <==> digit_value(digits.last()) < 0);
        match hex_number(digits) {
            Some(n) => {
                assert forall|i: int| 0 <= i < digits.len() implies digit_value(
                    #[trigger] digits[i],
                ) >= 0 by {
                    if i < rest.len() {
                        assert(rest[i] == digits[i]);
                    }
                }
            },
            None => {
                if hex_number(rest) is None {
                    let i = choose|i: int|
                        0 <= i < rest.len() && digit_value(#[trigger] rest[i]) < 0;
                    assert(digits[i] == rest[i]);
                } else {
                    assert(digits[digits.len() - 1] == digits.last());
                }
            },
        }
    }
}

proof fn lemma_chain_id(text: Seq<char>)
    ensures
        match chain_id_text(text) {
            Some(id) => writes_hex(text, id as int),
            None => forall|n: int| #[trigger] writes_hex(text, n) ==> n > u64::MAX,
        },
        forall|n: int| 0 <= n <= u64::MAX && #[trigger] writes_hex(text, n) ==> chain_id_text(text)
            == Some(n as u64),
{
    reveal_strlit("0x");
    let rest = if text.len() >= 2 {
        text.subrange(2, text.len() as int)
    } else {
        Seq::empty()
    };
    let digits = if rest.len() > 0 && rest[0] == '+' {
        rest.drop_first()
    } else {
        rest
    };
    lemma_hex_number(digits);
    assert forall|n: int| #[trigger] writes_hex(text, n) implies {
        &&& crate::text::starts_with(text, "0x"@)
        &&& digits.len() > 0
        &&& hex_number(digits) == Some(n as nat)
        &&& n >= 0
    } by {
        let d = choose|d: Seq<char>|
            {
                &&& #[trigger] hex_value(d) == n
                &&& d.len() > 0
                &&& forall|i: int| 0 <= i < d.len() ==> digit_value(#[trigger] d[i]) >= 0
                &&& text == seq!['0', 'x'] + d || text == seq!['0', 'x', '+'] + d
            };
        assert(text.subrange(0, 2) =~= "0x"@);
        if text == seq!['0', 'x', '+'] + d {
            assert(rest =~= seq!['+'] + d);
            assert(rest[0] == '+');
            assert(rest.drop_first() =~= d);
        } else {
            assert(rest =~= d);
            assert(rest[0] == d[0]);
            assert(digit_value(d[0]) >= 0);
        }
        assert(digits == d);
        assert(hex_number(digits) is Some);
    }
    if let Some(id) = chain_id_text(text) {
        assert(text.subrange(0, 2) == "0x"@);
        assert(text[0] == text.subrange(0, 2)[0] && text[1] == text.subrange(0, 2)[1]);
        if rest.len() > 0 && rest[0] == '+' {
            assert(text =~= seq!['0', 'x', '+'] + digits);
        } else {
            assert(text =~= seq!['0', 'x'] + digits);
        }
        assert(hex_value(digits) == id);
    }
}

/// A chain id is read as the number that the text writes in hexadecimal, where it fits 64
/// bits, and is missing everywhere else.
pub proof fn a_chain_id_is_the_number_it_writes(text: &str, chain_id: Option<u64>)
    requires
        call_ensures(mpp_rail::parse_chain_id, (text,), chain_id),
    ensures
        match chain_id {
            Some(id) => writes_hex(text@, id as int),
            None => forall|n: int| #[trigger] writes_hex(text@, n) ==> n > u64::MAX,
        },
{
    lemma_chain_id(text@);
}

/// Whether a response reports a chain id: its result is a text that writes it.
pub open spec fn reports(body: Tree, chain_id: int) -> bool {
    exists|text: Seq<char>| #[trigger] holds(body, "result"@, Tree::Text(text)) && writes_hex(
        text,
        chain_id,
    )
}

/// An endpoint's chain is the one it reports. A response that reports none is refused, and
/// the refusal quotes it.
pub proof fn a_chain_is_the_one_reported(body: &Value, chain_id: Result<u64, AppError>)
    requires
        call_ensures(mpp_rail::get_chain_id, (body,), chain_id),
    ensures
        match chain_id {
            Ok(id) => reports(json_tree(*body), id as int),
            Err(err) => {
                &&& forall|n: int| #[trigger] reports(json_tree(*body), n) ==> n > u64::MAX
                &&& err matches AppError::InvalidConfig(detail)
                &&& detail@ == "MPP_RPC_URL: "@ + ("eth_chainId returned no chain id: "@
                    + json_text(json_tree(*body)))
            },
        },
{
    let t = json_tree(*body);
    lemma_reported(t);
    if let Err(err) = chain_id {
        assert(err@ is InvalidConfig);
        assert(err is InvalidConfig);
    }
}

proof fn lemma_reported(t: Tree)
    ensures
        match mpp_rail::reported_chain_id(t) {
            Some(id) => reports(t, id as int),
            None => forall|n: int| #[trigger] reports(t, n) ==> n > u64::MAX,
        },
{
    lemma_member(t, "result"@);
    if let Some(Tree::Text(text)) = member(t, "result"@) {
        lemma_chain_id(text);
        assert(holds(t, "result"@, Tree::Text(text)));
    }
    if mpp_rail::reported_chain_id(t) is None {
        assert forall|n: int| #[trigger] reports(t, n) implies n > u64::MAX by {
            let text = choose|text: Seq<char>|
                #[trigger] holds(t, "result"@, Tree::Text(text)) && writes_hex(text, n);
            assert(member(t, "result"@) == Some(Tree::Text(text)));
        }
    }
}

/// The same of a response, once it is read.
pub proof fn a_chain_is_read_where_reported(body: &Json, chain_id: Option<u64>)
    requires
        call_ensures(mpp_rail::chain_id_of, (body,), chain_id),
    ensures
        match chain_id {
            Some(id) => reports(tree(*body), id as int),
            None => forall|n: int| #[trigger] reports(tree(*body), n) ==> n > u64::MAX,
        },
{
    lemma_reported(tree(*body));
}

/// The endpoint is asked for its chain id.
pub proof fn the_chain_is_asked_for(body: String)
    requires
        call_ensures(mpp_rail::chain_query, (), body),
    ensures
        body@ == json_text(
            Tree::Object(
                seq![
                    ("jsonrpc"@, Tree::Text("2.0"@)),
                    ("id"@, Tree::Number("1"@)),
                    ("method"@, Tree::Text("eth_chainId"@)),
                    ("params"@, Tree::List(Seq::empty())),
                ],
            ),
        ),
{
}

// The credential.

/// Whether headers carry this credential: the first `Authorization` says it, and it can be
/// read, whatever other headers there are.
pub open spec fn carry_credential(headers: Seq<Header>, authorization: Seq<char>) -> bool {
    says(headers, "authorization"@, authorization) && is_credential(authorization)
}

proof fn lemma_credential(headers: Headers)
    ensures
        match credential_in(headers@) {
            Some(authorization) => carry_credential(headers.entries@, authorization),
            None => forall|authorization: Seq<char>|
                !carry_credential(headers.entries@, authorization),
        },
        forall|authorization: Seq<char>|
            carry_credential(headers.entries@, authorization) ==> credential_in(headers@) == Some(
                authorization,
            ),
{
    lemma_text(headers, "authorization"@);
}

/// The credential is the first `Authorization` verbatim, wherever that can be read as one,
/// whatever other headers there are.
pub proof fn a_credential_is_read_wherever_there_is_one(
    headers: &Headers,
    authorization: Option<String>,
)
    requires
        call_ensures(mpp_rail::credential, (headers,), authorization),
    ensures
        match authorization {
            Some(authorization) => carry_credential(headers.entries@, authorization@),
            None => forall|authorization: Seq<char>|
                !carry_credential(headers.entries@, authorization),
        },
{
    lemma_credential(*headers);
}

/// Headers of other names can come and go: the credential stays what it was.
pub proof fn other_headers_do_not_touch_a_credential(
    headers: &Headers,
    others: &Headers,
    first: Option<String>,
    second: Option<String>,
)
    requires
        call_ensures(mpp_rail::credential, (headers,), first),
        call_ensures(mpp_rail::credential, (others,), second),
        forall|value: Seq<u8>|
            has(headers.entries@, "authorization"@, value) <==> has(
                others.entries@,
                "authorization"@,
                value,
            ),
    ensures
        first is Some <==> second is Some,
        first is Some ==> first->0@ == second->0@,
{
    lemma_lookup(*headers, "authorization"@);
    lemma_lookup(*others, "authorization"@);
    assert(credential_in(headers@) == credential_in(others@));
}

/// A header more of another name leaves the credential as it was.
pub proof fn another_header_leaves_the_credential(
    headers: Seq<(Seq<char>, Seq<u8>)>,
    name: Seq<char>,
    value: Seq<u8>,
)
    requires
        !crate::guarantees::texts::alike(name, "authorization"@),
    ensures
        credential_in(headers.push((name, value))) == credential_in(headers),
        credential_in(seq![(name, value)] + headers) == credential_in(headers),
{
    crate::guarantees::texts::lowering_forgets_case_alone(name, "authorization"@);
    crate::http::lemma_lookup_push(headers, (name, value), "authorization"@);
    let before = seq![(name, value)] + headers;
    assert(before.drop_first() =~= headers);
    assert(before[0] == (name, value));
}

/// A request carries a credential exactly where it has an `Authorization` header.
pub proof fn an_authorization_is_a_credential(headers: &Headers, present: bool)
    requires
        call_ensures(mpp_rail::has_credential, (headers,), present),
    ensures
        present <==> !is_absent(headers.entries@, "authorization"@),
{
    lemma_lookup(*headers, "authorization"@);
}

/// Only a signed transaction is one.
pub proof fn only_a_transaction_is_a_transaction(
    payload: &ChargePayload,
    transaction: Option<&String>,
)
    requires
        call_ensures(mpp_rail::transaction_payload, (payload,), transaction),
    ensures
        match *payload {
            ChargePayload::Transaction(data) => transaction matches Some(found) && found@ == data@,
            _ => transaction is None,
        },
{
}

/// Whether text writes these bytes in hexadecimal, two digits each, with `0x` before them or
/// not.
pub open spec fn writes_bytes(text: Seq<char>, bytes: Seq<u8>) -> bool {
    exists|digits: Seq<char>|
        {
            &&& #[trigger] is_digits_of(digits, bytes)
            &&& text == digits || text == seq!['0', 'x'] + digits || text == seq!['0', 'X']
                + digits
        }
}

/// Whether digits write these bytes in hexadecimal.
pub open spec fn is_digits_of(digits: Seq<char>, bytes: Seq<u8>) -> bool {
    &&& digits.len() == 2 * bytes.len()
    &&& forall|i: int|
        0 <= i < bytes.len() ==> {
            &&& digit_value(digits[2 * i]) >= 0
            &&& digit_value(digits[2 * i + 1]) >= 0
            &&& (#[trigger] bytes[i]) as int == 16 * digit_value(digits[2 * i]) + digit_value(
                digits[2 * i + 1],
            )
        }
}

proof fn lemma_hex_bytes(text: Seq<char>)
    ensures
        hex_bytes(text) matches Some(bytes) ==> writes_bytes(text, bytes),
        forall|bytes: Seq<u8>| #[trigger]
            writes_bytes(text, bytes) ==> hex_bytes(text) == Some(bytes),
{
    let digits = crate::text::hex_digits(text);
    if let Some(bytes) = hex_bytes(text) {
        assert forall|i: int| 0 <= i < bytes.len() implies {
            &&& digit_value(digits[2 * i]) >= 0
            &&& digit_value(digits[2 * i + 1]) >= 0
            &&& (#[trigger] bytes[i]) as int == 16 * digit_value(digits[2 * i]) + digit_value(
                digits[2 * i + 1],
            )
        } by {
            assert(hex_digit(digits[2 * i]) is Some);
            assert(hex_digit(digits[2 * i + 1]) is Some);
        }
        assert(is_digits_of(digits, bytes));
        if digits != text {
            assert(text =~= seq![text[0], text[1]] + digits);
        }
    }
    assert forall|bytes: Seq<u8>| #[trigger] writes_bytes(text, bytes) implies hex_bytes(text)
        == Some(bytes) by {
        let d = choose|d: Seq<char>|
            {
                &&& #[trigger] is_digits_of(d, bytes)
                &&& text == d || text == seq!['0', 'x'] + d || text == seq!['0', 'X'] + d
            };
        assert forall|k: int| 0 <= k < d.len() implies hex_digit(#[trigger] d[k]) is Some by {
            let i = k / 2;
            assert(0 <= i < bytes.len());
            let byte = bytes[i];
            assert(digit_value(d[2 * i]) >= 0 && digit_value(d[2 * i + 1]) >= 0);
            assert(k == 2 * i || k == 2 * i + 1);
        }
        if text != d {
            assert(text.subrange(2, text.len() as int) =~= d);
        } else if text.len() >= 2 {
            assert(hex_digit(d[1]) is Some);
        }
        assert(digits =~= d);
        assert(hex_bytes(text)->0 =~= bytes) by {
            assert forall|i: int| 0 <= i < bytes.len() implies hex_bytes(text)->0[i] == bytes[i] by {
                let byte = bytes[i];
                assert(hex_digit(d[2 * i]) is Some && hex_digit(d[2 * i + 1]) is Some);
            }
        }
    }
}

/// A transaction without the byte that marks it as Tempo's, where it starts with that.
pub open spec fn unmarked(bytes: Seq<u8>) -> Seq<u8> {
    if bytes.len() > 0 && bytes[0] == 0x76 {
        bytes.subrange(1, bytes.len() as int)
    } else {
        bytes
    }
}

/// Whether a payload is a transaction that this address signed.
pub open spec fn is_signed_by(payload: PayloadView, signer: Seq<char>) -> bool {
    &&& payload matches PayloadView::Transaction(text)
    &&& exists|bytes: Seq<u8>| #[trigger]
        writes_bytes(text, bytes) && transaction_signer(unmarked(bytes)) == Some(signer)
}

proof fn lemma_signer(payload: PayloadView)
    ensures
        match mpp_rail::signer_of(payload) {
            Some(signer) => is_signed_by(payload, signer),
            None => forall|signer: Seq<char>| !#[trigger] is_signed_by(payload, signer),
        },
        forall|signer: Seq<char>| #[trigger]
            is_signed_by(payload, signer) ==> mpp_rail::signer_of(payload) == Some(signer),
{
    if let PayloadView::Transaction(text) = payload {
        lemma_hex_bytes(text);
        assert forall|bytes: Seq<u8>| bytes.len() > 0 implies #[trigger] bytes.drop_first()
            == bytes.subrange(1, bytes.len() as int) by {
            assert(bytes.drop_first() =~= bytes.subrange(1, bytes.len() as int));
        }
        if let Some(bytes) = hex_bytes(text) {
            assert(writes_bytes(text, bytes));
            assert(mpp_rail::untyped(bytes) == unmarked(bytes)) by {
                if bytes.len() > 0 {
                    assert(bytes.drop_first() == bytes.subrange(1, bytes.len() as int));
                }
            }
        }
        assert forall|signer: Seq<char>| #[trigger]
            is_signed_by(payload, signer) implies mpp_rail::signer_of(payload) == Some(signer) by {
            let bytes = choose|bytes: Seq<u8>| #[trigger]
                writes_bytes(text, bytes) && transaction_signer(unmarked(bytes)) == Some(signer);
            assert(hex_bytes(text) == Some(bytes));
        }
    }
}

/// The payer is whoever signed the transaction that the payload writes in hexadecimal, with
/// or without the byte that marks it as Tempo's. Nobody is the payer of anything else.
pub proof fn the_payer_is_who_signed(payload: &ChargePayload, signer: Option<String>)
    requires
        call_ensures(mpp_rail::signer_address, (payload,), signer),
    ensures
        match signer {
            Some(signer) => is_signed_by(payload@, signer@),
            None => forall|signer: Seq<char>| !#[trigger] is_signed_by(payload@, signer),
        },
{
    lemma_signer(payload@);
}

/// A payload is of the kind it is of, and holds the text it holds.
pub proof fn a_payload_is_seen_as_it_is(payload: ChargePayload)
    ensures
        match payload {
            ChargePayload::Transaction(data) => payload@ == PayloadView::Transaction(data@),
            ChargePayload::Hash(data) => payload@ == PayloadView::Hash(data@),
            ChargePayload::Proof(data) => payload@ == PayloadView::Proof(data@),
        },
{
}

// The steps.

/// Whether two orders are the same: of the same endpoint, paid by the same credential.
pub open spec fn same_order(a: Order, b: Order) -> bool {
    same_endpoint(a.endpoint, b.endpoint) && a.authorization@ == b.authorization@
}

/// Whether a step charges an order its endpoint's price.
pub open spec fn charges(step: Step, chain_id: u64, order: Order) -> bool {
    &&& step matches Step::Charge(own, charge)
    &&& same_order(own, order)
    &&& takes(charge, chain_id, order.endpoint.price_base_units)
}

proof fn lemma_charges(step: Step, chain_id: u64, order: Order)
    requires
        step@ == mpp_rail::charging(chain_id, order@),
    ensures
        charges(step, chain_id, order),
{
    decimal_writes_the_number(order.endpoint.price_base_units as nat);
}

proof fn lemma_refuses(answer: Answer, status: u16, message: Seq<char>, outcome: Outcome)
    requires
        answer@ == crate::payment::uncharged(
            crate::error::error_reply(status, message),
            outcome,
        ),
    ensures
        refuses(answer, status, message, outcome),
{
    assert(answer.reply@ == crate::error::error_reply(status, message));
    lemma_one_header(answer.reply, "content-type"@, encode_utf8("application/json"@));
}

/// Only a signed transaction pays. Without a screener it is charged the endpoint's price.
/// With one, its signer is looked up in the screener's own bucket first, and a transaction
/// without a signer is refused; it never goes past the screen.
pub proof fn only_a_transaction_pays(
    client: &Client,
    screener: Option<&RestrictedAddressScreener>,
    order: Order,
    payload: Option<ChargePayload>,
    step: Step,
    signer: Option<String>,
)
    requires
        call_ensures(mpp_rail::handle_payload, (client, screener, order, payload), step),
        payload is Some ==> call_ensures(mpp_rail::signer_address, (&payload->0,), signer),
    ensures
        if payload is Some && payload->0 is Transaction {
            match (screener, signer) {
                (None, _) => charges(step, client.chain_id, order),
                (Some(screener), Some(signer)) => {
                    &&& step matches Step::Screen(own, lookup)
                    &&& same_order(own, order)
                    &&& lookup.bucket@ == screener.bucket@
                    &&& lookup.key@ == base64url(encode_utf8(signer@))
                },
                (Some(_), None) => step is Done && refuses(
                    step->Done_0,
                    402,
                    "mpp payment did not verify"@,
                    Outcome::ScreenedOut,
                ),
            }
        } else {
            step is Done && refuses(
                step->Done_0,
                402,
                "mpp payment did not verify"@,
                Outcome::Unsupported,
            )
        },
{
    if payload is Some && payload->0 is Transaction {
        if screener is None {
            lemma_charges(step, client.chain_id, order);
        } else if signer is None {
            lemma_refuses(
                step->Done_0,
                402,
                "mpp payment did not verify"@,
                Outcome::ScreenedOut,
            );
        }
    } else {
        lemma_refuses(step->Done_0, 402, "mpp payment did not verify"@, Outcome::Unsupported);
    }
}

/// The flow starts with the credential that the headers carry, whatever other headers there
/// are. Without a screener a signed transaction is charged the endpoint's price. With one,
/// it goes to the lookup of its signer in the screener's own bucket, or ends in a refusal
/// where it has none; it never goes past the screen. Nothing else pays, and every refusal
/// reads alike.
pub proof fn the_flow_starts_with_the_credential(
    client: &Client,
    screener: Option<&RestrictedAddressScreener>,
    headers: &Headers,
    endpoint: Endpoint,
    step: Step,
)
    requires
        call_ensures(mpp_rail::handle, (client, screener, headers, endpoint), step),
    ensures
        match step {
            Step::Charge(order, charge) => {
                &&& screener is None
                &&& same_endpoint(order.endpoint, endpoint)
                &&& carry_credential(headers.entries@, order.authorization@)
                &&& charge_payload(order.authorization@) matches Some(PayloadView::Transaction(_))
                &&& takes(charge, client.chain_id, endpoint.price_base_units)
            },
            Step::Screen(order, lookup) => {
                &&& screener matches Some(screener)
                &&& lookup.bucket@ == screener.bucket@
                &&& same_endpoint(order.endpoint, endpoint)
                &&& carry_credential(headers.entries@, order.authorization@)
                &&& charge_payload(order.authorization@) matches Some(
                    PayloadView::Transaction(text),
                )
                &&& exists|signer: Seq<char>| #[trigger]
                    is_signed_by(PayloadView::Transaction(text), signer) && lookup.key@
                        == base64url(encode_utf8(signer))
            },
            Step::Done(answer) => refuses(
                answer,
                402,
                "mpp payment did not verify"@,
                answer.outcome,
            ),
            Step::Search(_, _) => false,
        },
        forall|authorization: Seq<char>| #[trigger]
            carry_credential(headers.entries@, authorization) ==> match charge_payload(
                authorization,
            ) {
                Some(PayloadView::Transaction(text)) => {
                    &&& screener is None ==> step is Charge
                    &&& screener is Some && step is Done ==> step->Done_0.outcome
                        == Outcome::ScreenedOut && forall|signer: Seq<char>|
                        !#[trigger] is_signed_by(PayloadView::Transaction(text), signer)
                },
                _ => step is Done && step->Done_0.outcome == Outcome::Unsupported,
            },
        (forall|authorization: Seq<char>|
            !#[trigger] carry_credential(headers.entries@, authorization)) ==> step is Done
            && step->Done_0.outcome == Outcome::Malformed,
{
    lemma_credential(*headers);
    decimal_writes_the_number(endpoint.price_base_units as nat);
    match step {
        Step::Done(answer) => {
            lemma_refuses(answer, 402, "mpp payment did not verify"@, answer.outcome);
        },
        Step::Screen(order, _) => {
            let payload = charge_payload(order.authorization@)->0;
            lemma_signer(payload);
            assert(is_signed_by(payload, mpp_rail::signer_of(payload)->0));
        },
        _ => {
            assert(credential_in(headers@) is Some);
        },
    }
    if let Some(authorization) = credential_in(headers@) {
        if let Some(payload) = charge_payload(authorization) {
            lemma_signer(payload);
        }
    }
}

/// Only a signer who is known not to be listed is charged. A listed one is refused, and one
/// who could not be looked up is told to come back.
pub proof fn only_an_unlisted_signer_is_charged(
    client: &Client,
    order: Order,
    answer: HeadAnswer,
    step: Step,
)
    requires
        call_ensures(mpp_rail::screened, (client, order, answer), step),
    ensures
        match answer {
            HeadAnswer::NotFound => charges(step, client.chain_id, order),
            HeadAnswer::Found => step is Done && refuses(
                step->Done_0,
                402,
                "mpp payment did not verify"@,
                Outcome::ScreenedOut,
            ),
            HeadAnswer::Failed => step is Done && refuses(
                step->Done_0,
                503,
                "address screening unavailable"@,
                Outcome::ScreenUnavailable,
            ),
        },
{
    match answer {
        HeadAnswer::NotFound => {
            lemma_charges(step, client.chain_id, order);
        },
        HeadAnswer::Found => {
            lemma_refuses(
                step->Done_0,
                402,
                "mpp payment did not verify"@,
                Outcome::ScreenedOut,
            );
        },
        HeadAnswer::Failed => {
            lemma_refuses(
                step->Done_0,
                503,
                "address screening unavailable"@,
                Outcome::ScreenUnavailable,
            );
        },
    }
}

/// The search runs exactly for a charge that settled, and keeps its receipt. A charge that
/// was refused reads as every refusal, and a network that cannot be reached is our failure.
pub proof fn only_a_settled_charge_is_searched_for(
    order: Order,
    result: Result<Receipt, ChargeFailure>,
    step: Step,
)
    requires
        call_ensures(mpp_rail::charged, (order, result), step),
    ensures
        match result {
            Ok(receipt) => step is Search && same_order(step->Search_0, order) && step->Search_1
                == receipt,
            Err(ChargeFailure::Rejected) => step is Done && refuses(
                step->Done_0,
                402,
                "mpp payment did not verify"@,
                Outcome::Refused,
            ),
            Err(ChargeFailure::Unreachable) => step is Done && refuses(
                step->Done_0,
                502,
                "payment network unavailable"@,
                Outcome::NetworkUnavailable,
            ),
        },
{
    match result {
        Ok(_) => {},
        Err(ChargeFailure::Rejected) => {
            lemma_refuses(step->Done_0, 402, "mpp payment did not verify"@, Outcome::Refused);
        },
        Err(ChargeFailure::Unreachable) => {
            lemma_refuses(
                step->Done_0,
                502,
                "payment network unavailable"@,
                Outcome::NetworkUnavailable,
            );
        },
    }
}

/// Whoever was charged gets whatever the search gave, whatever its status, with the receipt
/// of the charge on it, and is charged the endpoint's price.
pub proof fn who_was_charged_gets_the_reply_and_the_receipt(
    order: Order,
    receipt: Receipt,
    reply: Reply,
    step: Step,
)
    requires
        call_ensures(mpp_rail::searched, (order, receipt, reply), step),
    ensures
        step is Done,
        step->Done_0.outcome == Outcome::Settled,
        step->Done_0.charged == Some(order.endpoint.price_base_units),
        is_reply_with(
            step->Done_0.reply,
            reply,
            "payment-receipt"@,
            encode_utf8(base64url(encode_utf8(json_text(receipt_document(receipt))))),
        ),
{
    setting_a_header_replaces_its_name_alone(
        reply@.headers,
        "payment-receipt"@,
        encode_utf8(base64url(encode_utf8(json_text(receipt_document(receipt))))),
    );
}

/// A receipt changes nothing of a reply but the header it stands in.
pub proof fn a_receipt_leaves_the_reply(reply: Reply, receipt: &Receipt, receipted: Reply)
    requires
        call_ensures(mpp_rail::attach_receipt, (reply, receipt), receipted),
    ensures
        is_reply_with(
            receipted,
            reply,
            "payment-receipt"@,
            encode_utf8(base64url(encode_utf8(json_text(receipt_document(*receipt))))),
        ),
{
    setting_a_header_replaces_its_name_alone(
        reply@.headers,
        "payment-receipt"@,
        encode_utf8(base64url(encode_utf8(json_text(receipt_document(*receipt))))),
    );
}

/// The charge is timed, and no other step.
pub proof fn the_charge_is_timed(step: &Step, timed: Option<PaymentStep>)
    requires
        call_ensures(Step::payment_step, (step,), timed),
    ensures
        match *step {
            Step::Charge(_, _) => timed == Some(PaymentStep::Charge),
            _ => timed is None,
        },
{
}

/// Whatever the screen and Tempo say, the search runs in no run whose charge did not settle,
/// and every run whose charge settled ends with the search's own status and body.
pub proof fn nobody_is_served_uncharged(
    headers: Seq<(Seq<char>, Seq<u8>)>,
    endpoint: EndpointView,
    chain_id: u64,
    bucket: Option<Seq<char>>,
    world: MppWorld,
)
    ensures
        ({
            let first = mpp_rail::start(headers, endpoint, chain_id, bucket);
            let answer = mpp_answer(chain_id, first, world);
            &&& world.charge is Err ==> !mpp_comes_through(
                chain_id,
                first,
                world,
                mpp_searching(),
            ) && answer.charged is None && answer.reply.status >= 400
            &&& world.charge is Ok && mpp_comes_through(chain_id, first, world, mpp_charging())
                ==> answer.charged == Some(endpoint.price_base_units) && answer.reply.status
                == world.search.status && answer.reply.body == world.search.body
        }),
{
    reveal_with_fuel(mpp_answer, 5);
    reveal_with_fuel(mpp_comes_through, 5);
}

} // verus!
