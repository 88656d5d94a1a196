//! What the x402 rail guarantees: what it offers, which payments it takes, and how each step
//! of its pay flow goes on.

use serde_json::Value;
use vstd::prelude::*;
use vstd::utf8::*;

use crate::endpoints::{Endpoint, EndpointView};
use crate::guarantees::documents::{holds, lemma_member};
use crate::guarantees::headers::{
    has, is_absent, lemma_lookup, lemma_text, says, setting_a_header_replaces_its_name_alone,
};
use crate::guarantees::replies::{lemma_one_header, same_reply, tells};
use crate::guarantees::texts::{
    a_number_is_written_in_one_way, alike, decimal_writes_the_number, is_small, lemma_lowered,
    lowering_forgets_case_alone, writes,
};
use crate::http::{Header, Headers, Reply};
use crate::json::{json_parse, json_text, json_tree, json_trees, member, same, tree, Json, Tree};
use crate::laws::{
    lemma_first_match, x402_answer, x402_comes_through, x402_searching, x402_settling, X402World,
};
use crate::metrics::PaymentStep;
use crate::payment::{Answer, Outcome};
use crate::screener::{base64url, HeadAnswer, RestrictedAddressScreener};
use crate::text::hex_digits;
use crate::x402;
use crate::x402::{
    accepted_entry, base64_decoded, base64_encoded, checksummed, offers, payer_in, payload_in,
    payment_by, payment_in, trees, Order, Payment, Step,
};

verus! {

// Offers.

/// Whether a document is the offer to take this many base units of the USDC at `asset` on
/// `network`, paid to the treasury.
pub open spec fn is_offer_of(
    offer: Tree,
    units: u64,
    network: Seq<char>,
    asset: Seq<char>,
    token: Seq<char>,
) -> bool {
    &&& offer matches Tree::Object(members)
    &&& members.len() == 7
    &&& members[0] == ("scheme"@, Tree::Text("exact"@))
    &&& members[1] == ("network"@, Tree::Text(network))
    &&& members[2].0 == "amount"@
    &&& members[2].1 matches Tree::Text(amount)
    &&& writes(amount, units as int)
    &&& members[3] == (
        "payTo"@,
        Tree::Text(checksummed("0xbd9420A98a7Bd6B89765e5715e169481602D9c3d"@)),
    )
    &&& members[4] == ("maxTimeoutSeconds"@, Tree::Number("300"@))
    &&& members[5] == ("asset"@, Tree::Text(asset))
    &&& members[6].0 == "extra"@
    &&& members[6].1 matches Tree::Object(extra)
    &&& extra == seq![
        ("assetTransferMethod"@, Tree::Text("eip3009"@)),
        ("name"@, Tree::Text(token)),
        ("version"@, Tree::Text("2"@)),
    ]
}

/// Whether a document offers a price in USDC on Base mainnet.
pub open spec fn is_base_offer(offer: Tree, units: u64) -> bool {
    is_offer_of(
        offer,
        units,
        "eip155:8453"@,
        "0x833589fCD6eDb6E08f4c7C32D4f71b54bdA02913"@,
        "USD Coin"@,
    )
}

/// Whether a document offers a price in faucet USDC on Base Sepolia.
pub open spec fn is_sepolia_offer(offer: Tree, units: u64) -> bool {
    is_offer_of(
        offer,
        units,
        "eip155:84532"@,
        "0x036CbD53842c5426634e7929541eC2318f3dCF7e"@,
        "USDC"@,
    )
}

/// Whether a document is one of the offers for a price.
pub open spec fn is_offered(offer: Tree, units: u64, allow_testnet: bool) -> bool {
    is_base_offer(offer, units) || (allow_testnet && is_sepolia_offer(offer, units))
}

pub(crate) proof fn lemma_offers(units: u64, allow_testnet: bool)
    ensures
        forall|offer: Tree|
            #![trigger is_offered(offer, units, allow_testnet)]
            is_offered(offer, units, allow_testnet) <==> offers(units, allow_testnet).contains(
                offer,
            ),
        offers(units, allow_testnet).len() == if allow_testnet { 2int } else { 1int },
        is_base_offer(offers(units, allow_testnet)[0], units),
        allow_testnet ==> is_sepolia_offer(offers(units, allow_testnet)[1], units),
{
    let entries = offers(units, allow_testnet);
    decimal_writes_the_number(units as nat);
    assert(entries[0] == x402::mainnet_offer(units));
    assert(is_base_offer(entries[0], units));
    if allow_testnet {
        assert(is_sepolia_offer(entries[1], units));
    }
    assert forall|offer: Tree|
        #![trigger is_offered(offer, units, allow_testnet)]
        is_offered(offer, units, allow_testnet) <==> entries.contains(offer) by {
        if entries.contains(offer) {
            let i = choose|i: int| 0 <= i < entries.len() && entries[i] == offer;
            assert(i == 0 || i == 1);
        }
        if is_base_offer(offer, units) {
            lemma_offer_is_one(offer, entries[0], units);
            assert(entries[0] == offer);
        } else if allow_testnet && is_sepolia_offer(offer, units) {
            lemma_offer_is_one(offer, entries[1], units);
            assert(entries[1] == offer);
        }
    }
}

proof fn lemma_offer_is_one(a: Tree, b: Tree, units: u64)
    requires
        (is_base_offer(a, units) && is_base_offer(b, units)) || (is_sepolia_offer(a, units)
            && is_sepolia_offer(b, units)),
    ensures
        a == b,
{
    let (xs, ys) = (a->Object_0, b->Object_0);
    a_number_is_written_in_one_way(xs[2].1->Text_0, ys[2].1->Text_0, units as int);
    assert(xs =~= ys);
}

/// What is offered for a price is that price, in USDC on Base mainnet, and in faucet USDC on
/// Base Sepolia only where testnets are allowed. Every offer is paid to the treasury.
pub proof fn an_offer_names_the_price_and_the_treasury(
    price: u64,
    allow_testnet: bool,
    entries: Vec<Value>,
)
    requires
        call_ensures(x402::accepts, (price, allow_testnet), entries),
    ensures
        entries@.len() == if allow_testnet { 2int } else { 1int },
        is_base_offer(json_tree(entries@[0]), price),
        allow_testnet ==> is_sepolia_offer(json_tree(entries@[1]), price),
        alike(
            checksummed("0xbd9420A98a7Bd6B89765e5715e169481602D9c3d"@),
            "0xbd9420A98a7Bd6B89765e5715e169481602D9c3d"@,
        ) || alike(
            checksummed("0xbd9420A98a7Bd6B89765e5715e169481602D9c3d"@),
            "bd9420A98a7Bd6B89765e5715e169481602D9c3d"@,
        ),
{
    lemma_offers(price, allow_testnet);
    let seen = json_trees(entries@);
    assert(seen.len() == entries@.len());
    assert(seen[0] == json_tree(entries@[0]));
    if allow_testnet {
        assert(seen[1] == json_tree(entries@[1]));
    }
    let whole = "0xbd9420A98a7Bd6B89765e5715e169481602D9c3d"@;
    let bare = "bd9420A98a7Bd6B89765e5715e169481602D9c3d"@;
    let paid = checksummed(whole);
    reveal_strlit("0xbd9420A98a7Bd6B89765e5715e169481602D9c3d");
    reveal_strlit("bd9420A98a7Bd6B89765e5715e169481602D9c3d");
    assert(hex_digits(whole) =~= bare);
    assert(x402::is_paid_to(json_tree(entries@[0]), x402::PAY_TO_EVM@));
    lowering_forgets_case_alone(hex_digits(paid), bare);
    assert(alike(hex_digits(paid), bare));
    if hex_digits(paid) != paid {
        assert forall|i: int| 0 <= i < paid.len() implies
            crate::guarantees::texts::same_letter(#[trigger] paid[i], whole[i]) by {
            if i >= 2 {
                assert(hex_digits(paid)[i - 2] == paid[i]);
                assert(bare[i - 2] == whole[i]);
            }
        }
        assert(alike(paid, whole));
    }
}

// Payments.

/// Whether headers carry a payment whose payload is this document: the first payment
/// signature is its JSON in base64, whatever other headers there are.
pub open spec fn carry_payload(headers: Seq<Header>, payload: Tree) -> bool {
    exists|text: Seq<char>|
        {
            &&& #[trigger] says(headers, "payment-signature"@, text)
            &&& base64_decoded(encode_utf8(text)) matches Some(bytes)
            &&& json_parse(bytes) == Some(payload)
        }
}

proof fn lemma_payload(headers: Headers)
    ensures
        match payload_in(headers@) {
            Some(payload) => carry_payload(headers.entries@, payload),
            None => forall|payload: Tree| !carry_payload(headers.entries@, payload),
        },
        forall|payload: Tree|
            carry_payload(headers.entries@, payload) ==> payload_in(headers@) == Some(payload),
{
    lemma_text(headers, "payment-signature"@);
    assert forall|payload: Tree| carry_payload(headers.entries@, payload) implies payload_in(
        headers@,
    ) == Some(payload) by {
        let text = choose|text: Seq<char>|
            {
                &&& #[trigger] says(headers.entries@, "payment-signature"@, text)
                &&& base64_decoded(encode_utf8(text)) matches Some(bytes)
                &&& json_parse(bytes) == Some(payload)
            };
        assert(crate::http::text_of(headers@, "payment-signature"@) == Some(text));
    }
    if let Some(payload) = payload_in(headers@) {
        let text = crate::http::text_of(headers@, "payment-signature"@)->0;
        assert(says(headers.entries@, "payment-signature"@, text));
    }
}

/// Whether a payload accepts an offer: it says the same under `accepted`.
pub open spec fn accepts(payload: Tree, offer: Tree) -> bool {
    exists|chosen: Tree| #[trigger] holds(payload, "accepted"@, chosen) && same(offer, chosen)
}

/// Whether headers carry a payment that accepts this one of the offers for a price.
pub open spec fn pay(
    headers: Seq<Header>,
    units: u64,
    allow_testnet: bool,
    payload: Tree,
    offer: Tree,
) -> bool {
    carry_payload(headers, payload) && is_offered(offer, units, allow_testnet) && accepts(
        payload,
        offer,
    )
}

/// The request that has the facilitator verify and settle a payment.
pub open spec fn asks_for(request: Seq<char>, payload: Tree, offer: Tree) -> bool {
    request == json_text(
        Tree::Object(
            seq![
                ("x402Version"@, Tree::Number("2"@)),
                ("paymentPayload"@, payload),
                ("paymentRequirements"@, offer),
            ],
        ),
    )
}

/// Whether a payload names this payer, in lower case.
pub open spec fn names_payer(payload: Tree, payer: Seq<char>) -> bool {
    exists|scheme: Tree, authorization: Tree, from: Seq<char>|
        {
            &&& #[trigger] holds(payload, "payload"@, scheme)
            &&& #[trigger] holds(scheme, "authorization"@, authorization)
            &&& #[trigger] holds(authorization, "from"@, Tree::Text(from))
            &&& is_small(payer, from)
        }
}

proof fn lemma_payer(payload: Tree)
    ensures
        match payer_in(payload) {
            Some(payer) => names_payer(payload, payer),
            None => forall|payer: Seq<char>| !names_payer(payload, payer),
        },
        forall|payer: Seq<char>|
            names_payer(payload, payer) ==> payer_in(payload) == Some(payer),
{
    lemma_member(payload, "payload"@);
    if let Some(scheme) = member(payload, "payload"@) {
        lemma_member(scheme, "authorization"@);
        if let Some(authorization) = member(scheme, "authorization"@) {
            lemma_member(authorization, "from"@);
            if let Some(Tree::Text(from)) = member(authorization, "from"@) {
                lemma_lowered(from);
                assert(holds(authorization, "from"@, Tree::Text(from)));
            }
        }
    }
    assert forall|payer: Seq<char>| names_payer(payload, payer) implies payer_in(payload) == Some(
        payer,
    ) by {
        let (scheme, authorization, from) = choose|
            scheme: Tree,
            authorization: Tree,
            from: Seq<char>,
        |
            {
                &&& #[trigger] holds(payload, "payload"@, scheme)
                &&& #[trigger] holds(scheme, "authorization"@, authorization)
                &&& #[trigger] holds(authorization, "from"@, Tree::Text(from))
                &&& is_small(payer, from)
            };
        assert(member(payload, "payload"@) == Some(scheme));
        assert(member(scheme, "authorization"@) == Some(authorization));
        assert(member(authorization, "from"@) == Some(Tree::Text(from)));
        lemma_lowered(from);
    }
}

proof fn lemma_payment(payload: Tree, units: u64, allow_testnet: bool)
    ensures
        match payment_by(payload, offers(units, allow_testnet)) {
            Some(payment) => exists|offer: Tree|
                #![trigger is_offered(offer, units, allow_testnet)]
                {
                    &&& is_offered(offer, units, allow_testnet)
                    &&& accepts(payload, offer)
                    &&& asks_for(payment.request, payload, offer)
                } && payment.payer == payer_in(payload),
            None => forall|offer: Tree|
                is_offered(offer, units, allow_testnet) ==> !#[trigger] accepts(payload, offer),
        },
{
    let entries = offers(units, allow_testnet);
    lemma_offers(units, allow_testnet);
    lemma_member(payload, "accepted"@);
    match member(payload, "accepted"@) {
        Some(chosen) => {
            lemma_first_match(entries, chosen);
            assert(holds(payload, "accepted"@, chosen));
            match accepted_entry(payload, entries) {
                Some(i) => {
                    let offer = entries[i];
                    assert(entries.contains(offer));
                    assert(is_offered(offer, units, allow_testnet));
                    assert(accepts(payload, offer));
                },
                None => {
                    assert forall|offer: Tree|
                        is_offered(offer, units, allow_testnet) implies !#[trigger] accepts(
                        payload,
                        offer,
                    ) by {
                        let i = choose|i: int| 0 <= i < entries.len() && entries[i] == offer;
                        assert(!same(entries[i], chosen));
                    }
                },
            }
        },
        None => {
            assert forall|offer: Tree|
                is_offered(offer, units, allow_testnet) implies !#[trigger] accepts(
                payload,
                offer,
            ) by {
                if accepts(payload, offer) {
                    let chosen = choose|chosen: Tree|
                        #[trigger] holds(payload, "accepted"@, chosen) && same(offer, chosen);
                    assert(member(payload, "accepted"@) == Some(chosen));
                }
            }
        },
    }
}

/// Whether two endpoints are the same.
pub open spec fn same_endpoint(a: Endpoint, b: Endpoint) -> bool {
    &&& a.path@ == b.path@
    &&& a.price_base_units == b.price_base_units
    &&& a.description@ == b.description@
}

/// Whether two orders are the same: of the same endpoint, paid by the same request.
pub open spec fn same_order(a: Order, b: Order) -> bool {
    same_endpoint(a.endpoint, b.endpoint) && a.request@ == b.request@
}

/// The payer to screen is the one that the payload names, in lower case; there is none
/// exactly where the payload names none.
pub proof fn the_payer_is_who_the_payload_names(payload: &Json, payer: Option<String>)
    requires
        call_ensures(x402::payer_address, (payload,), payer),
    ensures
        match payer {
            Some(payer) => names_payer(tree(*payload), payer@),
            None => forall|payer: Seq<char>| !names_payer(tree(*payload), payer),
        },
{
    lemma_payer(tree(*payload));
}

/// An offer is found exactly where the payload accepts it, and of several the first.
pub proof fn only_an_accepted_offer_is_found(
    payload: &Json,
    entries: &Vec<Json>,
    found: Option<usize>,
)
    requires
        call_ensures(x402::find_accepted, (payload, entries), found),
    ensures
        match found {
            Some(i) => i < entries@.len() && accepts(tree(*payload), tree(entries@[i as int])),
            None => forall|i: int|
                0 <= i < entries@.len() ==> !accepts(tree(*payload), tree(#[trigger] entries@[i])),
        },
{
    let payload = tree(*payload);
    let all = trees(entries@);
    lemma_member(payload, "accepted"@);
    if let Some(chosen) = member(payload, "accepted"@) {
        lemma_first_match(all, chosen);
        assert(holds(payload, "accepted"@, chosen));
        if found is None {
            assert forall|i: int| 0 <= i < entries@.len() implies !accepts(
                payload,
                tree(#[trigger] entries@[i]),
            ) by {
                assert(!same(all[i], chosen));
            }
        }
    }
}

/// Whether an order pays for an endpoint with the payment that headers carry: the facilitator
/// is asked about their payload and one of our own offers for the endpoint's price, which
/// the payload accepts.
pub open spec fn is_paid_by(
    order: Order,
    endpoint: Endpoint,
    allow_testnet: bool,
    headers: Seq<Header>,
    payload: Tree,
) -> bool {
    &&& same_endpoint(order.endpoint, endpoint)
    &&& exists|offer: Tree|
        #![trigger is_offered(offer, endpoint.price_base_units, allow_testnet)]
        {
            &&& is_offered(offer, endpoint.price_base_units, allow_testnet)
            &&& pay(headers, endpoint.price_base_units, allow_testnet, payload, offer)
            &&& asks_for(order.request@, payload, offer)
        }
}

/// Whether headers carry no payment for a price.
pub open spec fn pay_nothing(headers: Seq<Header>, units: u64, allow_testnet: bool) -> bool {
    forall|payload: Tree, offer: Tree|
        is_offered(offer, units, allow_testnet) && carry_payload(headers, payload)
            ==> !#[trigger] accepts(payload, offer)
}

/// Whether an answer refuses a payment, with this status and message, and charges nothing.
pub open spec fn refuses(
    answer: Answer,
    status: u16,
    message: Seq<char>,
    outcome: Outcome,
) -> bool {
    tells(answer.reply, status, message) && answer.charged is None && answer.outcome == outcome
}

proof fn lemma_refuses(answer: Answer, status: u16, message: Seq<char>, outcome: Outcome)
    requires
        answer@ == crate::payment::uncharged(
            crate::error::error_reply(status, message),
            outcome,
        ),
    ensures
        refuses(answer, status, message, outcome),
{
    assert(answer.reply@ == crate::error::error_reply(status, message));
    lemma_one_header(answer.reply, "content-type"@, encode_utf8("application/json"@));
}

/// The flow starts with the payment that the headers carry, whatever other headers there are.
/// Without a screener it goes to the facilitator. With one, it goes to the lookup of the
/// payer that the payload names, in the screener's own bucket, or ends in a refusal where it
/// names none; it never goes past the screen. Headers that carry no payment are refused, and
/// only they are called malformed.
pub proof fn the_flow_starts_with_the_payment(
    client: &x402::Client,
    screener: Option<&RestrictedAddressScreener>,
    headers: &Headers,
    endpoint: Endpoint,
    step: Step,
)
    requires
        call_ensures(x402::handle, (client, screener, headers, endpoint), step),
    ensures
        match step {
            Step::Verify(order) => screener is None && exists|payload: Tree| #[trigger]
                is_paid_by(order, endpoint, client.allow_testnet, headers.entries@, payload),
            Step::Screen(order, lookup) => {
                &&& screener matches Some(screener)
                &&& lookup.bucket@ == screener.bucket@
                &&& exists|payload: Tree, payer: Seq<char>|
                    {
                        &&& #[trigger] is_paid_by(
                            order,
                            endpoint,
                            client.allow_testnet,
                            headers.entries@,
                            payload,
                        )
                        &&& #[trigger] names_payer(payload, payer)
                        &&& lookup.key@ == base64url(encode_utf8(payer))
                    }
            },
            Step::Done(answer) => {
                ||| pay_nothing(
                    headers.entries@,
                    endpoint.price_base_units,
                    client.allow_testnet,
                ) && refuses(
                    answer,
                    402,
                    "malformed x402 payment payload"@,
                    Outcome::Malformed,
                )
                ||| screener is Some && !pay_nothing(
                    headers.entries@,
                    endpoint.price_base_units,
                    client.allow_testnet,
                ) && refuses(
                    answer,
                    402,
                    "x402 payment did not verify"@,
                    Outcome::ScreenedOut,
                ) && forall|payload: Tree, payer: Seq<char>|
                    carry_payload(headers.entries@, payload) ==> !#[trigger] names_payer(
                        payload,
                        payer,
                    )
            },
            _ => false,
        },
        !(step is Done) ==> !pay_nothing(
            headers.entries@,
            endpoint.price_base_units,
            client.allow_testnet,
        ),
{
    let units = endpoint.price_base_units;
    let t = client.allow_testnet;
    lemma_payload(*headers);
    match payload_in(headers@) {
        Some(payload) => {
            lemma_payment(payload, units, t);
            lemma_payer(payload);
            assert(carry_payload(headers.entries@, payload));
        },
        None => {},
    }
    match step {
        Step::Verify(order) => {
            let payload = payload_in(headers@)->0;
            assert(is_paid_by(order, endpoint, t, headers.entries@, payload));
        },
        Step::Screen(order, lookup) => {
            let payload = payload_in(headers@)->0;
            let payer = payer_in(payload)->0;
            assert(is_paid_by(order, endpoint, t, headers.entries@, payload));
            assert(names_payer(payload, payer));
        },
        Step::Done(answer) => {
            if payment_in(headers@, offers(units, t)) is None {
                lemma_refuses(
                    answer,
                    402,
                    "malformed x402 payment payload"@,
                    Outcome::Malformed,
                );
            } else {
                lemma_refuses(answer, 402, "x402 payment did not verify"@, Outcome::ScreenedOut);
            }
        },
        _ => {},
    }
}

/// Nothing in a request but its first payment signature decides how the flow starts: headers
/// of other names can come and go.
pub proof fn other_headers_do_not_touch_a_payment(
    client: &x402::Client,
    screener: Option<&RestrictedAddressScreener>,
    headers: &Headers,
    others: &Headers,
    endpoint: Endpoint,
    step: Step,
    other_step: Step,
)
    requires
        call_ensures(x402::handle, (client, screener, headers, endpoint), step),
        call_ensures(x402::handle, (client, screener, others, endpoint), other_step),
        forall|value: Seq<u8>|
            has(headers.entries@, "payment-signature"@, value) <==> has(
                others.entries@,
                "payment-signature"@,
                value,
            ),
    ensures
        step@ == other_step@,
{
    lemma_lookup(*headers, "payment-signature"@);
    lemma_lookup(*others, "payment-signature"@);
}

/// A payment is decoded exactly where the headers carry one: the facilitator is asked about
/// the payload as it came and one of the given offers, which it accepts, and the payer is
/// the one it names.
pub proof fn a_payment_is_decoded_where_there_is_one(
    headers: &Headers,
    entries: Vec<Value>,
    payment: Option<Payment>,
)
    requires
        call_ensures(x402::decode_payment, (headers, entries), payment),
    ensures
        match payment {
            Some(payment) => exists|payload: Tree, i: int|
                {
                    &&& #[trigger] carry_payload(headers.entries@, payload)
                    &&& 0 <= i < entries@.len()
                    &&& accepts(payload, json_tree(#[trigger] entries@[i]))
                    &&& asks_for(payment.request@, payload, json_tree(entries@[i]))
                    &&& match payment.payer {
                        Some(payer) => names_payer(payload, payer@),
                        None => forall|payer: Seq<char>| !names_payer(payload, payer),
                    }
                },
            None => forall|payload: Tree, i: int|
                carry_payload(headers.entries@, payload) && 0 <= i < entries@.len()
                    ==> !#[trigger] accepts(payload, json_tree(entries@[i])),
        },
{
    let all = json_trees(entries@);
    lemma_payload(*headers);
    if let Some(payload) = payload_in(headers@) {
        lemma_payer(payload);
        lemma_member(payload, "accepted"@);
        assert(carry_payload(headers.entries@, payload));
        match member(payload, "accepted"@) {
            Some(chosen) => {
                lemma_first_match(all, chosen);
                assert(holds(payload, "accepted"@, chosen));
                match payment {
                    Some(payment) => {
                        let i = accepted_entry(payload, all)->0;
                        assert(all[i] == json_tree(entries@[i]));
                        assert(accepts(payload, json_tree(entries@[i])));
                    },
                    None => {
                        assert forall|i: int| 0 <= i < entries@.len() implies !#[trigger] accepts(
                            payload,
                            json_tree(entries@[i]),
                        ) by {
                            assert(!same(all[i], chosen));
                        }
                    },
                }
            },
            None => {},
        }
    }
}

/// A request carries an x402 payment exactly where it has a payment signature.
pub proof fn a_payment_signature_is_a_payment(headers: &Headers, present: bool)
    requires
        call_ensures(x402::has_payment, (headers,), present),
    ensures
        present <==> !is_absent(headers.entries@, "payment-signature"@),
{
    lemma_lookup(*headers, "payment-signature"@);
}

// The steps.

/// Only a payer who is known not to be listed goes on to the facilitator. A listed one is
/// refused, and one who could not be looked up is told to come back.
pub proof fn only_an_unlisted_payer_goes_on(order: Order, answer: HeadAnswer, step: Step)
    requires
        call_ensures(x402::screened, (order, answer), step),
    ensures
        match answer {
            HeadAnswer::NotFound => step is Verify && same_order(step->Verify_0, order),
            HeadAnswer::Found => step is Done && refuses(
                step->Done_0,
                402,
                "x402 payment did not verify"@,
                Outcome::ScreenedOut,
            ),
            HeadAnswer::Failed => step is Done && refuses(
                step->Done_0,
                503,
                "address screening unavailable"@,
                Outcome::ScreenUnavailable,
            ),
        },
{
    match answer {
        HeadAnswer::NotFound => {},
        HeadAnswer::Found => {
            lemma_refuses(
                step->Done_0,
                402,
                "x402 payment did not verify"@,
                Outcome::ScreenedOut,
            );
        },
        HeadAnswer::Failed => {
            lemma_refuses(
                step->Done_0,
                503,
                "address screening unavailable"@,
                Outcome::ScreenUnavailable,
            );
        },
    }
}

/// The facilitator's word is taken only where it says `true` under the name asked for.
pub proof fn only_true_confirms(response: &Json, valid: bool, settled: bool)
    requires
        call_ensures(x402::is_valid, (response,), valid),
        call_ensures(x402::is_settled, (response,), settled),
    ensures
        valid <==> holds(tree(*response), "isValid"@, Tree::Bool(true)),
        settled <==> holds(tree(*response), "success"@, Tree::Bool(true)),
{
    lemma_member(tree(*response), "isValid"@);
    lemma_member(tree(*response), "success"@);
}

/// The search runs exactly for a payment that the facilitator calls valid. One that it does
/// not is refused, and a facilitator that cannot be reached is our failure.
pub proof fn only_a_valid_payment_is_searched_for(
    order: Order,
    response: Option<Value>,
    step: Step,
)
    requires
        call_ensures(x402::verified, (order, response), step),
    ensures
        match response {
            Some(response) => if holds(json_tree(response), "isValid"@, Tree::Bool(true)) {
                step is Search && same_order(step->Search_0, order)
            } else {
                step is Done && refuses(
                    step->Done_0,
                    402,
                    "x402 payment did not verify"@,
                    Outcome::Refused,
                )
            },
            None => step is Done && refuses(
                step->Done_0,
                502,
                "payment facilitator unavailable"@,
                Outcome::NetworkUnavailable,
            ),
        },
{
    match response {
        Some(response) => {
            lemma_member(json_tree(response), "isValid"@);
            if !holds(json_tree(response), "isValid"@, Tree::Bool(true)) {
                lemma_refuses(
                    step->Done_0,
                    402,
                    "x402 payment did not verify"@,
                    Outcome::Refused,
                );
            }
        },
        None => {
            lemma_refuses(
                step->Done_0,
                502,
                "payment facilitator unavailable"@,
                Outcome::NetworkUnavailable,
            );
        },
    }
}

/// The same of what the facilitator found, once it is read.
pub proof fn a_verdict_decides_whether_to_search(order: Order, valid: Option<bool>, step: Step)
    requires
        call_ensures(x402::judged, (order, valid), step),
    ensures
        match valid {
            Some(valid) => if valid {
                step is Search && same_order(step->Search_0, order)
            } else {
                step is Done && refuses(
                    step->Done_0,
                    402,
                    "x402 payment did not verify"@,
                    Outcome::Refused,
                )
            },
            None => step is Done && refuses(
                step->Done_0,
                502,
                "payment facilitator unavailable"@,
                Outcome::NetworkUnavailable,
            ),
        },
{
    match valid {
        Some(valid) => {
            if !valid {
                lemma_refuses(
                    step->Done_0,
                    402,
                    "x402 payment did not verify"@,
                    Outcome::Refused,
                );
            }
        },
        None => {
            lemma_refuses(
                step->Done_0,
                502,
                "payment facilitator unavailable"@,
                Outcome::NetworkUnavailable,
            );
        },
    }
}

/// A search settles exactly where its status is from 200 up to 299: the reply is then held
/// back, unchanged, until the payment settled. Any other reply, a 4xx or a 5xx among them,
/// goes to the client as it is, and nothing is charged.
pub proof fn only_a_successful_search_is_settled(order: Order, reply: Reply, step: Step)
    requires
        call_ensures(x402::searched, (order, reply), step),
    ensures
        200 <= reply.status <= 299 ==> step is Settle && same_order(step->Settle_0, order)
            && same_reply(step->Settle_1, reply),
        reply.status < 200 || reply.status >= 300 ==> step is Done && same_reply(
            step->Done_0.reply,
            reply,
        ) && step->Done_0.charged is None && step->Done_0.outcome == Outcome::UpstreamFailed,
{
}

/// Whatever the facilitator and the screen say, no run in which the search gives a status
/// under 200 or from 300 on comes to settle, charges anything, or ends as settled; and where
/// the search was run, its reply is what the client gets, unchanged.
pub proof fn nobody_pays_for_a_failed_search(
    headers: Seq<(Seq<char>, Seq<u8>)>,
    endpoint: EndpointView,
    allow_testnet: bool,
    bucket: Option<Seq<char>>,
    world: X402World,
)
    requires
        world.search.status < 200 || world.search.status >= 300,
    ensures
        ({
            let first = x402::start(headers, endpoint, allow_testnet, bucket);
            let answer = x402_answer(first, world);
            &&& !x402_comes_through(first, world, x402_settling())
            &&& answer.charged is None
            &&& answer.outcome != Outcome::Settled
            &&& x402_comes_through(first, world, x402_searching()) ==> answer.reply == world.search
                && answer.outcome == Outcome::UpstreamFailed
        }),
{
    reveal_with_fuel(x402_answer, 6);
    reveal_with_fuel(x402_comes_through, 6);
}

/// Whether a reply is another with one header set: status and body as they were, the other
/// headers in their order, and this one last.
pub open spec fn is_reply_with(
    reply: Reply,
    before: Reply,
    name: Seq<char>,
    value: Seq<u8>,
) -> bool {
    &&& reply.status == before.status
    &&& reply.body@ == before.body@
    &&& reply.headers@ == before.headers@.filter(
        |header: (Seq<char>, Seq<u8>)| !alike(header.0, name),
    ).push((name, value))
}

/// The client gets the search's reply, with the facilitator's own receipt on it, exactly
/// where the facilitator says that the payment settled, and is then charged the endpoint's
/// price. Otherwise the reply is withheld and nothing is charged, whether the facilitator
/// declined or could not be reached.
pub proof fn only_a_settled_payment_is_answered(
    order: Order,
    reply: Reply,
    response: Option<Value>,
    step: Step,
)
    requires
        call_ensures(x402::settled, (order, reply, response), step),
    ensures
        step is Done,
        match response {
            Some(receipt) if holds(json_tree(receipt), "success"@, Tree::Bool(true)) => {
                &&& step->Done_0.outcome == Outcome::Settled
                &&& step->Done_0.charged == Some(order.endpoint.price_base_units)
                &&& is_reply_with(
                    step->Done_0.reply,
                    reply,
                    "payment-response"@,
                    encode_utf8(base64_encoded(encode_utf8(json_text(json_tree(receipt))))),
                )
            },
            _ => refuses(
                step->Done_0,
                502,
                "x402 payment could not be settled"@,
                Outcome::SettleFailed,
            ),
        },
{
    let settled = response matches Some(receipt) && holds(
        json_tree(receipt),
        "success"@,
        Tree::Bool(true),
    );
    if let Some(receipt) = response {
        lemma_member(json_tree(receipt), "success"@);
    }
    if settled {
        let value = encode_utf8(
            base64_encoded(encode_utf8(json_text(json_tree(response->0)))),
        );
        setting_a_header_replaces_its_name_alone(reply@.headers, "payment-response"@, value);
    } else {
        lemma_refuses(
            step->Done_0,
            502,
            "x402 payment could not be settled"@,
            Outcome::SettleFailed,
        );
    }
}

/// The same of a receipt, once it is encoded.
pub proof fn only_a_receipt_is_answered(
    order: Order,
    reply: Reply,
    receipt: Option<String>,
    step: Step,
)
    requires
        call_ensures(x402::receipted, (order, reply, receipt), step),
    ensures
        step is Done,
        match receipt {
            Some(value) => {
                &&& step->Done_0.outcome == Outcome::Settled
                &&& step->Done_0.charged == Some(order.endpoint.price_base_units)
                &&& is_reply_with(
                    step->Done_0.reply,
                    reply,
                    "payment-response"@,
                    encode_utf8(value@),
                )
            },
            None => refuses(
                step->Done_0,
                502,
                "x402 payment could not be settled"@,
                Outcome::SettleFailed,
            ),
        },
{
    match receipt {
        Some(value) => {
            setting_a_header_replaces_its_name_alone(
                reply@.headers,
                "payment-response"@,
                encode_utf8(value@),
            );
        },
        None => {
            lemma_refuses(
                step->Done_0,
                502,
                "x402 payment could not be settled"@,
                Outcome::SettleFailed,
            );
        },
    }
}

/// A receipt changes nothing of a reply but the header it stands in.
pub proof fn a_receipt_leaves_the_reply(reply: Reply, value: &str, receipted: Reply)
    requires
        call_ensures(x402::attach_receipt, (reply, value), receipted),
    ensures
        is_reply_with(receipted, reply, "payment-response"@, encode_utf8(value@)),
{
    setting_a_header_replaces_its_name_alone(
        reply@.headers,
        "payment-response"@,
        encode_utf8(value@),
    );
}

/// Calls to the facilitator are timed, each as what it is, and no other.
pub proof fn the_facilitator_is_timed(step: &Step, timed: Option<PaymentStep>)
    requires
        call_ensures(Step::payment_step, (step,), timed),
    ensures
        match *step {
            Step::Verify(_) => timed == Some(PaymentStep::Verify),
            Step::Settle(_, _) => timed == Some(PaymentStep::Settle),
            _ => timed is None,
        },
{
}

} // verus!
