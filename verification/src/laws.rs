//! What holds of the service as a whole: of every offer, every run of a pay flow, and every
//! dispatched request, whatever the outside answers.

use mpp::Receipt;
use vstd::prelude::*;
use vstd::utf8::*;

use crate::dispatch::{
    attempted, cold_reply, collision_reply, host_of, mpp_challenge, planned, requested_url, scheme_of, target,
    PlanView, Rail,
};
use crate::endpoints::{catalog, sold, sold_is_what_the_catalog_lists, EndpointView};
use crate::error::error_reply;
use crate::http::{
    is_success, lemma_lookup_push, lookup, set_header_is_read_back, ReplyView,
    RequestHead,
};
use crate::json::{member, member_of, names_differ, readable, same, text_in, Tree, RESERVED_NAME};
use crate::metrics::ChallengeReason;
use crate::mpp_rail;
use crate::mpp_rail::{
    charge_payload, credential_in, receipt_text, ChargeFailure, AUTHORIZATION,
    WWW_AUTHENTICATE,
};
use crate::payment::{AnswerView, Outcome};
use crate::screener::{key_of, HeadAnswer};
use crate::search::upstream_url;
use crate::text::{decimal, digit_char, lowered, starts_with};
use crate::x402;
use crate::x402::{
    accepted_entry, challenge_document, checksummed, confirms, first_match, offer, offers,
    payer_in, payload_in, payment_by, payment_in, route_binding, testnet_offer,
    PAYMENT_REQUIRED_HEADER, PAY_TO_EVM, V2_PAYMENT_HEADER,
};

verus! {

// Offers.

/// Whether no object in a document names a member twice.
pub open spec fn well_named(t: Tree) -> bool
    decreases t,
{
    match t {
        Tree::List(items) => forall|i: int|
            0 <= i < items.len() ==> well_named(#[trigger] items[i]),
        Tree::Object(members) => names_differ(members) && forall|i: int|
            0 <= i < members.len() ==> well_named((#[trigger] members[i]).1),
        _ => true,
    }
}

proof fn lemma_member_at(members: Seq<(Seq<char>, Tree)>, i: int)
    requires
        0 <= i < members.len(),
        names_differ(members),
    ensures
        member_of(members, members[i].0) == Some(members[i].1),
    decreases members.len(),
{
    if i > 0 {
        assert(members[0].0 != members[i].0);
        lemma_member_at(members.drop_first(), i - 1);
        assert(members.drop_first()[i - 1] == members[i]);
    }
}

/// A document that names no member twice says the same as itself.
pub proof fn a_document_says_the_same_as_itself(t: Tree)
    requires
        well_named(t),
    ensures
        same(t, t),
    decreases t,
{
    match t {
        Tree::List(items) => {
            assert forall|i: int| 0 <= i < items.len() implies same(
                #[trigger] items[i],
                items[i],
            ) by {
                a_document_says_the_same_as_itself(items[i]);
            }
        },
        Tree::Object(members) => {
            assert forall|i: int| 0 <= i < members.len() implies (match member_of(
                members,
                (#[trigger] members[i]).0,
            ) {
                Some(y) => same(members[i].1, y),
                None => false,
            }) by {
                lemma_member_at(members, i);
                a_document_says_the_same_as_itself(members[i].1);
            }
        },
        _ => {},
    }
}

proof fn lemma_offer_is_well_named(
    network: Seq<char>,
    amount: nat,
    pay_to: Seq<char>,
    asset: Seq<char>,
    token: Seq<char>,
)
    ensures
        well_named(offer(network, amount, pay_to, asset, token)),
        readable(offer(network, amount, pay_to, asset, token), 2),
{
    reveal_with_fuel(well_named, 3);
    reveal_with_fuel(readable, 3);
    reveal_strlit("$serde_json::private::RawValue");
    reveal_strlit("scheme");
    reveal_strlit("network");
    reveal_strlit("amount");
    reveal_strlit("payTo");
    reveal_strlit("maxTimeoutSeconds");
    reveal_strlit("asset");
    reveal_strlit("extra");
    reveal_strlit("assetTransferMethod");
    reveal_strlit("name");
    reveal_strlit("version");
    let members = offer(network, amount, pay_to, asset, token)->Object_0;
    assert(members[0].0[0] == 's' && members[2].0[0] == 'a');
    assert(members[3].0[0] == 'p' && members[5].0[0] == 'a' && members[6].0[0] == 'e');
    assert(members[0].0.len() == 6 && members[1].0.len() == 7 && members[2].0.len() == 6);
    assert(members[3].0.len() == 5 && members[4].0.len() == 17);
    assert(members[5].0.len() == 5 && members[6].0.len() == 5);
    assert(names_differ(members));
    let extra = members[6].1->Object_0;
    assert(extra[0].0.len() == 19 && extra[1].0.len() == 4 && extra[2].0.len() == 7);
    assert(names_differ(extra));
    assert(well_named(members[6].1));
    assert forall|i: int| 0 <= i < members.len() implies well_named(
        (#[trigger] members[i]).1,
    ) by {}
    assert(readable(members[6].1, 1));
    assert forall|i: int| 0 <= i < members.len() implies readable(
        (#[trigger] members[i]).1,
        1,
    ) by {}
}

pub(crate) proof fn lemma_first_match(entries: Seq<Tree>, chosen: Tree)
    ensures
        match first_match(entries, chosen) {
            Some(i) => 0 <= i < entries.len() && same(entries[i], chosen),
            None => forall|i: int| 0 <= i < entries.len() ==> !same(#[trigger] entries[i], chosen),
        },
    decreases entries.len(),
{
    if entries.len() > 0 {
        lemma_first_match(entries.drop_first(), chosen);
        let rest = entries.drop_first();
        if first_match(entries, chosen) is None {
            assert forall|i: int| 0 <= i < entries.len() implies !same(
                #[trigger] entries[i],
                chosen,
            ) by {
                if i > 0 {
                    assert(rest[i - 1] == entries[i]);
                }
            }
        }
    }
}

/// Whoever accepts an advertised offer verbatim makes a payment: the offers advertised and
/// the offers payments are verified against are the same.
pub proof fn an_advertised_offer_can_be_paid(
    payload: Tree,
    price: u64,
    allow_testnet: bool,
    i: int,
)
    requires
        0 <= i < offers(price, allow_testnet).len(),
        member(payload, "accepted"@) == Some(offers(price, allow_testnet)[i]),
    ensures
        payment_by(payload, offers(price, allow_testnet)) is Some,
{
    let entries = offers(price, allow_testnet);
    let tree = entries[i];
    lemma_offer_is_well_named(
        "eip155:8453"@,
        price as nat,
        checksummed(PAY_TO_EVM@),
        "0x833589fCD6eDb6E08f4c7C32D4f71b54bdA02913"@,
        "USD Coin"@,
    );
    lemma_offer_is_well_named(
        "eip155:84532"@,
        price as nat,
        checksummed(PAY_TO_EVM@),
        "0x036CbD53842c5426634e7929541eC2318f3dCF7e"@,
        "USDC"@,
    );
    a_document_says_the_same_as_itself(tree);
    lemma_first_match(entries, tree);
}

proof fn lemma_same_as_offer(
    network: Seq<char>,
    amount: nat,
    pay_to: Seq<char>,
    asset: Seq<char>,
    token: Seq<char>,
    chosen: Tree,
)
    requires
        same(offer(network, amount, pay_to, asset, token), chosen),
    ensures
        member(chosen, "network"@) == Some(Tree::Text(network)),
        member(chosen, "amount"@) == Some(Tree::Text(decimal(amount))),
        member(chosen, "payTo"@) == Some(Tree::Text(pay_to)),
        member(chosen, "asset"@) == Some(Tree::Text(asset)),
{
    reveal_with_fuel(same, 2);
    let members = offer(network, amount, pay_to, asset, token)->Object_0;
    assert(members[1] == ("network"@, Tree::Text(network)));
    assert(members[2] == ("amount"@, Tree::Text(decimal(amount))));
    assert(members[3] == ("payTo"@, Tree::Text(pay_to)));
    assert(members[5] == ("asset"@, Tree::Text(asset)));
}

/// A payer cannot write their own price, network, asset, or recipient: what a payment
/// accepts is what we advertise, and it is an advertised offer that the facilitator is
/// asked to verify and settle.
pub proof fn a_payer_cannot_write_their_own_terms(
    payload: Tree,
    price: u64,
    allow_testnet: bool,
)
    requires
        payment_by(payload, offers(price, allow_testnet)) is Some,
    ensures
        member(payload, "accepted"@) is Some,
        member(member(payload, "accepted"@)->0, "amount"@) == Some(
            Tree::Text(decimal(price as nat)),
        ),
        member(member(payload, "accepted"@)->0, "payTo"@) == Some(
            Tree::Text(checksummed(PAY_TO_EVM@)),
        ),
        exists|i: int|
            0 <= i < offers(price, allow_testnet).len() && same(
                #[trigger] offers(price, allow_testnet)[i],
                member(payload, "accepted"@)->0,
            ) && payment_by(payload, offers(price, allow_testnet))->0.request
                == crate::json::json_text(
                x402::facilitator_request(payload, offers(price, allow_testnet)[i]),
            ),
{
    let entries = offers(price, allow_testnet);
    let chosen = member(payload, "accepted"@)->0;
    lemma_first_match(entries, chosen);
    let i = accepted_entry(payload, entries)->0;
    assert(same(entries[i], chosen));
    if i == 0 {
        lemma_same_as_offer(
            "eip155:8453"@,
            price as nat,
            checksummed(PAY_TO_EVM@),
            "0x833589fCD6eDb6E08f4c7C32D4f71b54bdA02913"@,
            "USD Coin"@,
            chosen,
        );
    } else {
        lemma_same_as_offer(
            "eip155:84532"@,
            price as nat,
            checksummed(PAY_TO_EVM@),
            "0x036CbD53842c5426634e7929541eC2318f3dCF7e"@,
            "USDC"@,
            chosen,
        );
    }
}

proof fn lemma_decimal_tells_apart(a: nat, b: nat)
    ensures
        decimal(a) == decimal(b) ==> a == b,
    decreases a + b,
{
    if decimal(a) == decimal(b) {
        lemma_decimal_length(a);
        lemma_decimal_length(b);
        lemma_digits_tell_apart(a % 10, b % 10);
        if a < 10 && b < 10 {
            assert(decimal(a)[0] == digit_char(a));
            assert(decimal(b)[0] == digit_char(b));
        } else if a >= 10 && b >= 10 {
            assert(decimal(a).last() == digit_char(a % 10));
            assert(decimal(b).last() == digit_char(b % 10));
            assert(decimal(a).drop_last() == decimal(a / 10));
            assert(decimal(b).drop_last() == decimal(b / 10));
            lemma_decimal_tells_apart(a / 10, b / 10);
        }
    }
}

proof fn lemma_decimal_length(n: nat)
    ensures
        decimal(n).len() >= 1,
        n >= 10 ==> decimal(n).len() >= 2,
    decreases n,
{
    if n >= 10 {
        lemma_decimal_length(n / 10);
    }
}

proof fn lemma_digits_tell_apart(a: nat, b: nat)
    requires
        a < 10,
        b < 10,
    ensures
        digit_char(a) == digit_char(b) ==> a == b,
{
}

/// What is paid for a cheap endpoint never buys a dear one: a payment that accepts an offer
/// of another price is no payment.
pub proof fn an_offer_of_another_price_does_not_pay(
    payload: Tree,
    price: u64,
    other: u64,
    allow_testnet: bool,
    i: int,
)
    requires
        price != other,
        0 <= i < offers(other, allow_testnet).len(),
        member(payload, "accepted"@) == Some(offers(other, allow_testnet)[i]),
    ensures
        payment_by(payload, offers(price, allow_testnet)) is None,
{
    if payment_by(payload, offers(price, allow_testnet)) is Some {
        a_payer_cannot_write_their_own_terms(payload, price, allow_testnet);
        an_advertised_offer_can_be_paid(payload, other, allow_testnet, i);
        a_payer_cannot_write_their_own_terms(payload, other, allow_testnet);
        lemma_decimal_tells_apart(price as nat, other as nat);
    }
}

/// Without the testnet flag, faucet money does not pay, whatever price it names.
pub proof fn faucet_money_needs_the_testnet_flag(payload: Tree, price: u64, other: u64)
    requires
        member(payload, "accepted"@) == Some(testnet_offer(other)),
    ensures
        payment_by(payload, offers(price, false)) is None,
{
    if payment_by(payload, offers(price, false)) is Some {
        let chosen = testnet_offer(other);
        lemma_first_match(offers(price, false), chosen);
        lemma_same_as_offer(
            "eip155:8453"@,
            price as nat,
            checksummed(PAY_TO_EVM@),
            "0x833589fCD6eDb6E08f4c7C32D4f71b54bdA02913"@,
            "USD Coin"@,
            chosen,
        );
        lemma_offer_is_well_named(
            "eip155:84532"@,
            other as nat,
            checksummed(PAY_TO_EVM@),
            "0x036CbD53842c5426634e7929541eC2318f3dCF7e"@,
            "USDC"@,
        );
        lemma_member_at(chosen->Object_0, 1);
        assert(chosen->Object_0[1] == ("network"@, Tree::Text("eip155:84532"@)));
        reveal_strlit("eip155:84532");
        reveal_strlit("eip155:8453");
        assert("eip155:84532"@.len() != "eip155:8453"@.len());
    }
}

/// The payer as a payload writes it.
pub open spec fn named_payer(payload: Tree) -> Option<Seq<char>> {
    match member(payload, "payload"@) {
        Some(scheme) => match member(scheme, "authorization"@) {
            Some(authorization) => text_in(member(authorization, "from"@)),
            None => None,
        },
        None => None,
    }
}

/// Whatever the case in which a payload writes its payer, the same key is screened: EVM
/// addresses are case-insensitive, and the payer is screened in lower case.
pub proof fn payer_case_does_not_matter(payload: Tree, recased: Tree)
    requires
        named_payer(payload) is Some,
        named_payer(recased) is Some,
        lowered(named_payer(payload)->0) == lowered(named_payer(recased)->0),
    ensures
        payer_in(payload) is Some,
        payer_in(payload) == payer_in(recased),
        lowered(payer_in(payload)->0) == payer_in(payload)->0,
{
    let from = named_payer(payload)->0;
    assert(lowered(lowered(from)) == lowered(from));
}

// Runs of the x402 flow.

/// What the outside answers in a run of the x402 flow: S3, the facilitator on verify, the
/// search, and the facilitator on settle.
#[verifier::ext_equal]
pub struct X402World {
    pub screening: HeadAnswer,
    pub verification: Option<Tree>,
    pub search: ReplyView,
    pub settlement: Option<Tree>,
}

/// The stage after `stage`.
pub open spec fn x402_next(stage: x402::Stage, world: X402World) -> x402::Stage {
    match stage {
        x402::Stage::Screen(order, _) => x402::after_screen(order, world.screening),
        x402::Stage::Verify(order) => x402::after_verify(order, world.verification),
        x402::Stage::Search(order) => x402::after_search(order, world.search),
        x402::Stage::Settle(order, reply) => x402::after_settle(order, reply, world.settlement),
        x402::Stage::Done(answer) => x402::Stage::Done(answer),
    }
}

/// How many calls to the outside a stage is at most away from the answer.
pub open spec fn x402_distance(stage: x402::Stage) -> nat {
    match stage {
        x402::Stage::Screen(..) => 4,
        x402::Stage::Verify(_) => 3,
        x402::Stage::Search(_) => 2,
        x402::Stage::Settle(..) => 1,
        x402::Stage::Done(_) => 0,
    }
}

/// What a run that starts at `stage` answers.
pub open spec fn x402_answer(stage: x402::Stage, world: X402World) -> AnswerView
    decreases x402_distance(stage),
{
    match stage {
        x402::Stage::Done(answer) => answer,
        _ => x402_answer(x402_next(stage, world), world),
    }
}

/// Whether a run that starts at `stage` comes through a stage of a kind.
pub open spec fn x402_comes_through(
    stage: x402::Stage,
    world: X402World,
    kind: spec_fn(x402::Stage) -> bool,
) -> bool
    decreases x402_distance(stage),
{
    kind(stage) || (!(stage is Done) && x402_comes_through(x402_next(stage, world), world, kind))
}

/// The stage that has the facilitator verify a payment.
pub open spec fn x402_verifying() -> spec_fn(x402::Stage) -> bool {
    |stage: x402::Stage| stage is Verify
}

/// The stage that runs the search.
pub open spec fn x402_searching() -> spec_fn(x402::Stage) -> bool {
    |stage: x402::Stage| stage is Search
}

/// The stage that has the facilitator settle a payment.
pub open spec fn x402_settling() -> spec_fn(x402::Stage) -> bool {
    |stage: x402::Stage| stage is Settle
}

/// Whether the facilitator's verification, where there is one, confirms the payment.
pub open spec fn verification_confirms(world: X402World) -> bool {
    world.verification matches Some(response) && confirms(response, "isValid"@)
}

/// Whether the facilitator's settlement, where there is one, confirms the payment.
pub open spec fn settlement_confirms(world: X402World) -> bool {
    world.settlement matches Some(response) && confirms(response, "success"@)
}

/// Nobody is served on the x402 rail who did not pay: a reply of success is the search's,
/// and comes only after verification and settlement were both confirmed.
pub proof fn x402_serves_only_who_paid(
    headers: Seq<(Seq<char>, Seq<u8>)>,
    endpoint: EndpointView,
    allow_testnet: bool,
    bucket: Option<Seq<char>>,
    world: X402World,
)
    ensures
        ({
            let answer = x402_answer(
                x402::start(headers, endpoint, allow_testnet, bucket),
                world,
            );
            is_success(answer.reply.status) ==> {
                &&& verification_confirms(world)
                &&& settlement_confirms(world)
                &&& answer.reply == x402::with_receipt(world.search, world.settlement->0)
                &&& answer.charged == Some(endpoint.price_base_units)
                &&& payment_in(headers, offers(endpoint.price_base_units, allow_testnet)) is Some
            }
        }),
{
    reveal_with_fuel(x402_answer, 6);
}

/// Whoever pays on the x402 rail is served: a payment that can be read, whose payer is not
/// listed, and which verifies and settles, gets the reply of a search that succeeds, with
/// the receipt on it.
pub proof fn x402_serves_who_pays(
    headers: Seq<(Seq<char>, Seq<u8>)>,
    endpoint: EndpointView,
    allow_testnet: bool,
    bucket: Option<Seq<char>>,
    world: X402World,
)
    requires
        payment_in(headers, offers(endpoint.price_base_units, allow_testnet)) is Some,
        bucket is Some ==> world.screening == HeadAnswer::NotFound && payment_in(
            headers,
            offers(endpoint.price_base_units, allow_testnet),
        )->0.payer is Some,
        verification_confirms(world),
        is_success(world.search.status),
        settlement_confirms(world),
    ensures
        x402_answer(x402::start(headers, endpoint, allow_testnet, bucket), world) == (AnswerView {
            reply: x402::with_receipt(world.search, world.settlement->0),
            outcome: Outcome::Settled,
            charged: Some(endpoint.price_base_units),
        }),
{
    reveal_with_fuel(x402_answer, 6);
}

/// Nobody is charged on the x402 rail for a response they do not get: a charge is the
/// endpoint's price, and goes with the successful reply of the search, receipt attached.
pub proof fn x402_charges_only_for_what_is_served(
    headers: Seq<(Seq<char>, Seq<u8>)>,
    endpoint: EndpointView,
    allow_testnet: bool,
    bucket: Option<Seq<char>>,
    world: X402World,
)
    ensures
        ({
            let first = x402::start(headers, endpoint, allow_testnet, bucket);
            let answer = x402_answer(first, world);
            &&& answer.charged is Some <==> answer.outcome == Outcome::Settled
            &&& answer.charged is Some ==> {
                &&& answer.charged == Some(endpoint.price_base_units)
                &&& is_success(world.search.status)
                &&& answer.reply == x402::with_receipt(world.search, world.settlement->0)
            }
            &&& x402_comes_through(first, world, x402_settling()) ==> is_success(
                world.search.status,
            ) && x402_comes_through(first, world, x402_searching())
        }),
{
    reveal_with_fuel(x402_answer, 6);
    reveal_with_fuel(x402_comes_through, 6);
}

/// The search runs only for a payment that verified, and verification is asked only of a
/// payment that could be read.
pub proof fn x402_each_step_gates_the_next(
    headers: Seq<(Seq<char>, Seq<u8>)>,
    endpoint: EndpointView,
    allow_testnet: bool,
    bucket: Option<Seq<char>>,
    world: X402World,
)
    ensures
        ({
            let first = x402::start(headers, endpoint, allow_testnet, bucket);
            &&& x402_comes_through(first, world, x402_searching()) ==> verification_confirms(world)
            &&& x402_comes_through(first, world, x402_verifying()) ==> payment_in(
                headers,
                offers(endpoint.price_base_units, allow_testnet),
            ) is Some
        }),
{
    reveal_with_fuel(x402_comes_through, 6);
}

/// With a screener, the payer is screened before any facilitator or upstream call: none of
/// those is made unless the payer's own key was looked up and is not on the list.
pub proof fn x402_screens_before_any_call(
    headers: Seq<(Seq<char>, Seq<u8>)>,
    endpoint: EndpointView,
    allow_testnet: bool,
    bucket: Seq<char>,
    world: X402World,
)
    ensures
        ({
            let first = x402::start(headers, endpoint, allow_testnet, Some(bucket));
            x402_comes_through(first, world, x402_verifying()) || x402_comes_through(
                first,
                world,
                x402_searching(),
            ) || x402_comes_through(first, world, x402_settling()) ==> {
                &&& world.screening == HeadAnswer::NotFound
                &&& payment_in(
                    headers,
                    offers(endpoint.price_base_units, allow_testnet),
                ) matches Some(payment)
                &&& payment.payer is Some
                &&& first matches x402::Stage::Screen(_, lookup)
                &&& lookup.bucket == bucket
                &&& lookup.key == key_of(payment.payer->0)
            }
        }),
{
    reveal_with_fuel(x402_comes_through, 6);
}

/// A search that fails after the payment verified is relayed as is, and nothing settles.
pub proof fn x402_relays_a_failed_search(order: x402::OrderView, world: X402World)
    requires
        !is_success(world.search.status),
    ensures
        x402_answer(x402::Stage::Search(order), world).reply == world.search,
        x402_answer(x402::Stage::Search(order), world).charged is None,
        !x402_comes_through(x402::Stage::Search(order), world, x402_settling()),
{
    reveal_with_fuel(x402_answer, 3);
    reveal_with_fuel(x402_comes_through, 3);
}

/// A payment that does not settle has the body withheld, and the client cannot tell a
/// facilitator that declined from one that was unreachable.
pub proof fn x402_withholds_an_unsettled_reply(order: x402::OrderView, world: X402World)
    requires
        is_success(world.search.status),
        !settlement_confirms(world),
    ensures
        x402_answer(x402::Stage::Search(order), world).reply == error_reply(
            502,
            x402::SETTLE_FAILED@,
        ),
        x402_answer(x402::Stage::Search(order), world).charged is None,
{
    reveal_with_fuel(x402_answer, 3);
}

/// A payer on the restricted list and one whose payment does not verify read the same.
pub proof fn x402_refusals_read_alike(order: x402::OrderView, response: Tree)
    requires
        !confirms(response, "isValid"@),
    ensures
        ({
            &&& x402::after_screen(order, HeadAnswer::Found) matches x402::Stage::Done(blocked)
            &&& x402::after_verify(order, Some(response)) matches x402::Stage::Done(refused)
            &&& blocked.reply == refused.reply
        }),
{
}

// Runs of the MPP flow.

/// What the outside answers in a run of the MPP flow: S3, Tempo, and the search.
#[verifier::ext_equal]
pub struct MppWorld {
    pub screening: HeadAnswer,
    pub charge: Result<Receipt, ChargeFailure>,
    pub search: ReplyView,
}

/// The stage after `stage`.
pub open spec fn mpp_next(
    chain_id: u64,
    stage: mpp_rail::Stage,
    world: MppWorld,
) -> mpp_rail::Stage {
    match stage {
        mpp_rail::Stage::Screen(order, _) => mpp_rail::after_screen(
            chain_id,
            order,
            world.screening,
        ),
        mpp_rail::Stage::Charge(order, _) => mpp_rail::after_charge(order, world.charge),
        mpp_rail::Stage::Search(order, receipt) => mpp_rail::after_search(
            order,
            receipt,
            world.search,
        ),
        mpp_rail::Stage::Done(answer) => mpp_rail::Stage::Done(answer),
    }
}

/// How many calls to the outside a stage is at most away from the answer.
pub open spec fn mpp_distance(stage: mpp_rail::Stage) -> nat {
    match stage {
        mpp_rail::Stage::Screen(..) => 3,
        mpp_rail::Stage::Charge(..) => 2,
        mpp_rail::Stage::Search(..) => 1,
        mpp_rail::Stage::Done(_) => 0,
    }
}

/// What a run that starts at `stage` answers.
pub open spec fn mpp_answer(
    chain_id: u64,
    stage: mpp_rail::Stage,
    world: MppWorld,
) -> AnswerView
    decreases mpp_distance(stage),
{
    match stage {
        mpp_rail::Stage::Done(answer) => answer,
        _ => mpp_answer(chain_id, mpp_next(chain_id, stage, world), world),
    }
}

/// Whether a run that starts at `stage` comes through a stage of a kind.
pub open spec fn mpp_comes_through(
    chain_id: u64,
    stage: mpp_rail::Stage,
    world: MppWorld,
    kind: spec_fn(mpp_rail::Stage) -> bool,
) -> bool
    decreases mpp_distance(stage),
{
    kind(stage) || (!(stage is Done) && mpp_comes_through(
        chain_id,
        mpp_next(chain_id, stage, world),
        world,
        kind,
    ))
}

/// The stage that verifies and settles a credential.
pub open spec fn mpp_charging() -> spec_fn(mpp_rail::Stage) -> bool {
    |stage: mpp_rail::Stage| stage is Charge
}

/// The stage that runs the search.
pub open spec fn mpp_searching() -> spec_fn(mpp_rail::Stage) -> bool {
    |stage: mpp_rail::Stage| stage is Search
}

/// On the MPP rail the search runs only when the charge has settled, so nobody is served who
/// did not pay; and whoever was charged gets the search's reply with the receipt on it,
/// whatever its status.
pub proof fn mpp_charges_before_it_serves(
    headers: Seq<(Seq<char>, Seq<u8>)>,
    endpoint: EndpointView,
    chain_id: u64,
    bucket: Option<Seq<char>>,
    world: MppWorld,
)
    ensures
        ({
            let first = mpp_rail::start(headers, endpoint, chain_id, bucket);
            let answer = mpp_answer(chain_id, first, world);
            let searched = mpp_comes_through(chain_id, first, world, mpp_searching());
            &&& searched <==> answer.outcome == Outcome::Settled
            &&& searched <==> answer.charged is Some
            &&& searched ==> {
                &&& world.charge is Ok
                &&& answer.charged == Some(endpoint.price_base_units)
                &&& answer.reply == mpp_rail::with_receipt(world.search, world.charge->Ok_0)
                &&& answer.reply.status == world.search.status
                &&& answer.reply.body == world.search.body
                &&& lookup(answer.reply.headers, mpp_rail::PAYMENT_RECEIPT_HEADER@) == Some(
                    encode_utf8(receipt_text(world.charge->Ok_0)),
                )
            }
            &&& mpp_comes_through(chain_id, first, world, mpp_charging()) && world.charge is Ok
                ==> searched
            &&& is_success(answer.reply.status) ==> searched
        }),
{
    reveal_with_fuel(mpp_answer, 5);
    reveal_with_fuel(mpp_comes_through, 5);
    if let Ok(receipt) = world.charge {
        set_header_is_read_back(
            world.search.headers,
            mpp_rail::PAYMENT_RECEIPT_HEADER@,
            encode_utf8(receipt_text(receipt)),
            mpp_rail::PAYMENT_RECEIPT_HEADER@,
        );
    }
}

/// Whoever pays on the MPP rail is served: a signed transaction whose signer is not listed,
/// and which settles, gets the search's reply with the receipt on it.
pub proof fn mpp_serves_who_pays(
    headers: Seq<(Seq<char>, Seq<u8>)>,
    endpoint: EndpointView,
    chain_id: u64,
    bucket: Option<Seq<char>>,
    world: MppWorld,
)
    requires
        credential_in(headers) is Some,
        charge_payload(credential_in(headers)->0) is Some,
        charge_payload(credential_in(headers)->0)->0 is Transaction,
        bucket is Some ==> world.screening == HeadAnswer::NotFound && mpp_rail::signer_of(
            charge_payload(credential_in(headers)->0)->0,
        ) is Some,
        world.charge is Ok,
    ensures
        mpp_answer(chain_id, mpp_rail::start(headers, endpoint, chain_id, bucket), world) == (
        AnswerView {
            reply: mpp_rail::with_receipt(world.search, world.charge->Ok_0),
            outcome: Outcome::Settled,
            charged: Some(endpoint.price_base_units),
        }),
{
    reveal_with_fuel(mpp_answer, 5);
}

/// Only a signed transaction is ever charged, and always at the endpoint's price on the
/// deployment's chain: a hash or a proof credential, or one that cannot be read, never
/// reaches Tempo.
pub proof fn mpp_charges_only_a_signed_transaction(
    headers: Seq<(Seq<char>, Seq<u8>)>,
    endpoint: EndpointView,
    chain_id: u64,
    bucket: Option<Seq<char>>,
    world: MppWorld,
)
    requires
        mpp_comes_through(
            chain_id,
            mpp_rail::start(headers, endpoint, chain_id, bucket),
            world,
            mpp_charging(),
        ),
    ensures
        ({
            &&& credential_in(headers) matches Some(authorization)
            &&& charge_payload(authorization) matches Some(payload)
            &&& payload is Transaction
        }),
        mpp_comes_through(
            chain_id,
            mpp_rail::start(headers, endpoint, chain_id, bucket),
            world,
            |stage: mpp_rail::Stage|
                stage matches mpp_rail::Stage::Charge(order, charge) && charge
                    == mpp_rail::charge_on(chain_id, endpoint.price_base_units)
                    && credential_in(headers) == Some(order.authorization),
        ),
{
    reveal_with_fuel(mpp_comes_through, 5);
}

/// With a screener, the signer is screened before the charge: a payer who is listed, or who
/// cannot be screened, has no transaction broadcast and no search run.
pub proof fn mpp_screens_before_the_charge(
    headers: Seq<(Seq<char>, Seq<u8>)>,
    endpoint: EndpointView,
    chain_id: u64,
    bucket: Seq<char>,
    world: MppWorld,
)
    ensures
        ({
            let first = mpp_rail::start(headers, endpoint, chain_id, Some(bucket));
            mpp_comes_through(chain_id, first, world, mpp_charging()) || mpp_comes_through(
                chain_id,
                first,
                world,
                mpp_searching(),
            ) ==> {
                &&& world.screening == HeadAnswer::NotFound
                &&& credential_in(headers) matches Some(authorization)
                &&& charge_payload(authorization) matches Some(payload)
                &&& mpp_rail::signer_of(payload) matches Some(signer)
                &&& first matches mpp_rail::Stage::Screen(_, lookup)
                &&& lookup.bucket == bucket
                &&& lookup.key == key_of(signer)
            }
        }),
{
    reveal_with_fuel(mpp_comes_through, 5);
}

/// The charge that the cold `402` advertises for a path is the charge that a credential for
/// the path is verified against, whether or not its payer was screened before.
pub proof fn the_advertised_charge_is_the_verified_charge(
    client: mpp_rail::Client,
    x402: Option<x402::Client>,
    bucket: Option<Seq<char>>,
    path: Seq<char>,
    headers: Seq<(Seq<char>, Seq<u8>)>,
    expires: Seq<char>,
    answer: HeadAnswer,
)
    requires
        sold(path) is Some,
    ensures
        ({
            let price = sold(path)->0.price_base_units;
            let charge = mpp_rail::charge_on(client.chain_id, price);
            &&& mpp_rail::challenge_for(client, price, expires) == mpp_rail::minted(
                client.secret_key@,
                mpp_rail::REALM@,
                mpp_rail::METHOD@,
                mpp_rail::INTENT@,
                mpp_rail::charge_document(charge),
                expires,
            )
            &&& planned(x402, Some(client), bucket, path, headers) matches PlanView::Mpp(_, stage)
                ==> match stage {
                mpp_rail::Stage::Charge(_, verified) => verified == charge,
                mpp_rail::Stage::Screen(order, _) => mpp_rail::after_screen(
                    client.chain_id,
                    order,
                    answer,
                ) matches mpp_rail::Stage::Charge(_, verified) ==> verified == charge,
                _ => true,
            }
        }),
{
}

/// Every refusal on the MPP rail reads alike: a `402` says the same whether the credential
/// was missing, malformed, not a signed transaction, blocked, or rejected.
pub proof fn mpp_refusals_read_alike(
    headers: Seq<(Seq<char>, Seq<u8>)>,
    endpoint: EndpointView,
    chain_id: u64,
    bucket: Option<Seq<char>>,
    world: MppWorld,
)
    ensures
        ({
            let answer = mpp_answer(
                chain_id,
                mpp_rail::start(headers, endpoint, chain_id, bucket),
                world,
            );
            answer.charged is None && answer.reply.status == 402 ==> answer.reply
                == mpp_rail::rejection()
        }),
{
    reveal_with_fuel(mpp_answer, 5);
}

// Dispatch.

/// Both rails at once are always a collision, whichever rails are on.
pub proof fn both_rails_collide(
    x402: Option<x402::Client>,
    mpp: Option<mpp_rail::Client>,
    bucket: Option<Seq<char>>,
    path: Seq<char>,
    headers: Seq<(Seq<char>, Seq<u8>)>,
)
    requires
        sold(path) is Some,
        lookup(headers, V2_PAYMENT_HEADER@) is Some,
        lookup(headers, AUTHORIZATION@) is Some,
    ensures
        planned(x402, mpp, bucket, path, headers) == PlanView::Collision(sold(path)->0),
        collision_reply().status == 400,
{
}

/// A path outside the catalog is never priced, challenged, or paid for.
pub proof fn only_the_catalog_is_sold(
    x402: Option<x402::Client>,
    mpp: Option<mpp_rail::Client>,
    bucket: Option<Seq<char>>,
    path: Seq<char>,
    headers: Seq<(Seq<char>, Seq<u8>)>,
)
    ensures
        planned(x402, mpp, bucket, path, headers) == PlanView::NotSold <==> sold(path) is None,
{
}

/// A search goes where the catalog says: whatever the query, the upstream URL starts with
/// the base URL and a path of the catalog, so a caller cannot name another upstream path.
pub proof fn a_search_goes_where_the_catalog_says(
    base: Seq<char>,
    path: Seq<char>,
    query: Option<Seq<char>>,
)
    requires
        sold(path) is Some,
    ensures
        starts_with(upstream_url(base, path, query), base + sold(path)->0.path),
        catalog().contains(sold(path)->0),
{
    sold_is_what_the_catalog_lists(path, 0);
    let prefix = base + path;
    assert(upstream_url(base, path, query).subrange(0, prefix.len() as int) == prefix);
}

/// The price advertised for a path is the price a payment for it is verified against:
/// whoever accepts an offer that the cold `402` for the path advertises makes a payment for
/// it, which without a screener goes straight to verification.
pub proof fn the_advertised_price_is_the_verified_price(
    client: x402::Client,
    mpp: Option<mpp_rail::Client>,
    path: Seq<char>,
    headers: Seq<(Seq<char>, Seq<u8>)>,
    payload: Tree,
    i: int,
)
    requires
        sold(path) is Some,
        attempted(headers) == Rail::X402,
        payload_in(headers) == Some(payload),
        0 <= i < offers(sold(path)->0.price_base_units, client.allow_testnet).len(),
        member(payload, "accepted"@) == Some(
            offers(sold(path)->0.price_base_units, client.allow_testnet)[i],
        ),
    ensures
        payment_in(headers, offers(sold(path)->0.price_base_units, client.allow_testnet)) is Some,
        planned(Some(client), mpp, None, path, headers) matches PlanView::X402(endpoint, stage)
            && endpoint == sold(path)->0 && stage is Verify,
{
    an_advertised_offer_can_be_paid(
        payload,
        sold(path)->0.price_base_units,
        client.allow_testnet,
        i,
    );
}

/// A payment on a rail this deployment turned off is answered like a request without one,
/// and counted apart from it.
pub proof fn a_disabled_rail_is_challenged(
    x402: Option<x402::Client>,
    mpp: Option<mpp_rail::Client>,
    bucket: Option<Seq<char>>,
    path: Seq<char>,
    headers: Seq<(Seq<char>, Seq<u8>)>,
)
    requires
        sold(path) is Some,
        (attempted(headers) == Rail::X402 && x402 is None) || (attempted(headers) == Rail::Mpp
            && mpp is None),
    ensures
        planned(x402, mpp, bucket, path, headers) == PlanView::Challenge(
            sold(path)->0,
            ChallengeReason::RailDisabled,
        ),
{
}

proof fn lemma_lookup_ignores_case(
    headers: Seq<(Seq<char>, Seq<u8>)>,
    recased: Seq<(Seq<char>, Seq<u8>)>,
    name: Seq<char>,
)
    requires
        headers.len() == recased.len(),
        forall|i: int|
            0 <= i < headers.len() ==> lowered((#[trigger] headers[i]).0) == lowered(recased[i].0)
                && headers[i].1 == recased[i].1,
    ensures
        lookup(headers, name) == lookup(recased, name),
    decreases headers.len(),
{
    if headers.len() > 0 {
        assert(lowered(headers[0].0) == lowered(recased[0].0));
        lemma_lookup_ignores_case(headers.drop_first(), recased.drop_first(), name);
    }
}

/// Nothing but the two payment headers decides how a request is classified: any other
/// header, such as the one that x402 V1 pays with, leaves it as it was.
pub proof fn other_headers_do_not_matter(
    headers: Seq<(Seq<char>, Seq<u8>)>,
    name: Seq<char>,
    value: Seq<u8>,
)
    requires
        lowered(name) != lowered(V2_PAYMENT_HEADER@),
        lowered(name) != lowered(AUTHORIZATION@),
    ensures
        attempted(headers.push((name, value))) == attempted(headers),
{
    lemma_lookup_push(headers, (name, value), V2_PAYMENT_HEADER@);
    lemma_lookup_push(headers, (name, value), AUTHORIZATION@);
}

/// The case in which a client writes header names never changes how its request is
/// classified.
pub proof fn header_case_does_not_matter(
    headers: Seq<(Seq<char>, Seq<u8>)>,
    recased: Seq<(Seq<char>, Seq<u8>)>,
)
    requires
        headers.len() == recased.len(),
        forall|i: int|
            0 <= i < headers.len() ==> lowered((#[trigger] headers[i]).0) == lowered(recased[i].0)
                && headers[i].1 == recased[i].1,
    ensures
        attempted(headers) == attempted(recased),
{
    lemma_lookup_ignores_case(headers, recased, V2_PAYMENT_HEADER@);
    lemma_lookup_ignores_case(headers, recased, AUTHORIZATION@);
}

/// The two challenge headers have different names, whatever the case.
pub(crate) proof fn lemma_challenge_headers_differ()
    ensures
        lowered(PAYMENT_REQUIRED_HEADER@) != lowered(WWW_AUTHENTICATE@),
{
    reveal_strlit("payment-required");
    reveal_strlit("www-authenticate");
    assert(lowered(PAYMENT_REQUIRED_HEADER@)[0] == 'p');
    assert(lowered(WWW_AUTHENTICATE@)[0] == 'w');
}

/// The cold `402` advertises exactly the rails that are on: each has its header where it is
/// on and its challenge could be built, and none where it is off. The body is empty.
pub proof fn the_cold_402_advertises_the_enabled_rails(
    x402: Option<x402::Client>,
    mpp: Option<mpp_rail::Client>,
    head: RequestHead,
    endpoint: EndpointView,
    expires: Seq<char>,
)
    ensures
        ({
            let reply = cold_reply(x402, mpp, head, endpoint, expires);
            &&& reply.status == 402
            &&& reply.body.len() == 0
            &&& lookup(reply.headers, PAYMENT_REQUIRED_HEADER@) == (match x402 {
                Some(client) => Some(
                    encode_utf8(
                        x402::challenge_value(
                            offers(endpoint.price_base_units, client.allow_testnet),
                            requested_url(head),
                            head.path@,
                            head.method@,
                        ),
                    ),
                ),
                None => None,
            })
            &&& lookup(reply.headers, WWW_AUTHENTICATE@) == (match mpp_challenge(
                mpp,
                endpoint,
                expires,
            ) {
                Some(challenge) => Some(encode_utf8(challenge)),
                None => None,
            })
        }),
{
    lemma_challenge_headers_differ();
    let base = crate::http::bare(402);
    let offered = cold_reply(x402, None, head, endpoint, expires);
    if let Some(client) = x402 {
        let value = encode_utf8(
            x402::challenge_value(
                offers(endpoint.price_base_units, client.allow_testnet),
                requested_url(head),
                head.path@,
                head.method@,
            ),
        );
        set_header_is_read_back(base.headers, PAYMENT_REQUIRED_HEADER@, value, WWW_AUTHENTICATE@);
    }
    if let Some(challenge) = mpp_challenge(mpp, endpoint, expires) {
        set_header_is_read_back(
            offered.headers,
            WWW_AUTHENTICATE@,
            encode_utf8(challenge),
            PAYMENT_REQUIRED_HEADER@,
        );
    }
}

/// The envelope of the cold `402` can be read back.
pub(crate) proof fn lemma_challenge_is_readable(
    price: u64,
    allow_testnet: bool,
    resource: Seq<char>,
    path: Seq<char>,
    method: Seq<char>,
)
    ensures
        readable(
            challenge_document(
                offers(price, allow_testnet),
                resource,
                path,
                route_binding(method),
            ),
            127,
        ),
{
    lemma_offer_is_well_named(
        "eip155:8453"@,
        price as nat,
        checksummed(PAY_TO_EVM@),
        "0x833589fCD6eDb6E08f4c7C32D4f71b54bdA02913"@,
        "USD Coin"@,
    );
    lemma_offer_is_well_named(
        "eip155:84532"@,
        price as nat,
        checksummed(PAY_TO_EVM@),
        "0x036CbD53842c5426634e7929541eC2318f3dCF7e"@,
        "USDC"@,
    );
    let entries = offers(price, allow_testnet);
    assert forall|i: int| 0 <= i < entries.len() implies readable(#[trigger] entries[i], 125) by {
        lemma_readable_further(entries[i], 2, 125);
    }
    reveal_with_fuel(readable, 3);
    reveal_strlit("$serde_json::private::RawValue");
    reveal_strlit("x402Version");
    reveal_strlit("url");
    reveal_strlit("mppx");
    reveal_strlit("info");
    reveal_strlit("method");
    assert(RESERVED_NAME@.len() == 30);
    assert("method"@.len() == 6 && "info"@.len() == 4 && "mppx"@.len() == 4);
    assert("url"@.len() == 3 && "x402Version"@.len() == 11);
    let document = challenge_document(entries, resource, path, route_binding(method));
    let members = document->Object_0;
    let info = Tree::Object(seq![("method"@, Tree::Text(method))]);
    let mppx = Tree::Object(seq![("info"@, info)]);
    assert(readable(info, 124));
    assert(readable(mppx, 125));
    assert(members[4].1 == Tree::Object(route_binding(method)));
    assert(readable(members[4].1, 126));
    assert(readable(members[3].1, 126));
    assert(readable(members[2].1, 126));
    assert forall|i: int| 0 <= i < members.len() implies readable(
        (#[trigger] members[i]).1,
        126,
    ) by {}
}

proof fn lemma_readable_further(t: Tree, levels: nat, more: nat)
    requires
        readable(t, levels),
        levels <= more,
    ensures
        readable(t, more),
    decreases t,
{
    match t {
        Tree::List(items) => {
            assert forall|i: int| 0 <= i < items.len() implies readable(
                #[trigger] items[i],
                (more - 1) as nat,
            ) by {
                lemma_readable_further(items[i], (levels - 1) as nat, (more - 1) as nat);
            }
        },
        Tree::Object(members) => {
            assert forall|i: int| 0 <= i < members.len() implies readable(
                (#[trigger] members[i]).1,
                (more - 1) as nat,
            ) by {
                lemma_readable_further(members[i].1, (levels - 1) as nat, (more - 1) as nat);
            }
        },
        _ => {},
    }
}

/// The URL a cold `402` names is the one that was asked for, path and query verbatim behind
/// scheme and host.
pub proof fn the_resource_is_what_was_asked_for(head: RequestHead)
    ensures
        host_of(head) is None ==> requested_url(head) == target(head),
        host_of(head) is Some ==> requested_url(head) == (scheme_of(head) + "://"@ + host_of(
            head,
        )->0) + target(head),
{
}

} // verus!
