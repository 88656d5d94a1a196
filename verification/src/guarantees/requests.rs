//! What dispatching a request guarantees: which rail it goes to, that payers are screened, and
//! what the challenge of an unpaid one says.

use serde_json::Value;
use vstd::prelude::*;
use vstd::utf8::*;

use crate::config::Config;
use crate::dispatch::{
    absolute_uri, attempted, classify, cold_402, collision_400, context, dispatch, host, scheme,
    Context, Plan, Rail,
};
use crate::endpoints::{endpoint_description, find, Endpoint};
use crate::error::AppError;
use crate::guarantees::catalog::{is_for_sale, is_sold_as, lemma_sold};
use crate::guarantees::headers::{has, is_absent, lemma_lookup, lemma_text, says, says_nothing};
use crate::guarantees::mpp_rail::{challenges, lemma_challenges};
use crate::guarantees::replies::{lemma_one_header, tells};
use crate::guarantees::x402_rail::{is_base_offer, is_sepolia_offer, lemma_offers};
use crate::http::{is_header_value, without, Headers, Reply, RequestHead};
use crate::json::{json_parse, json_text, json_tree, json_trees, Tree};
use crate::laws::{lemma_challenge_headers_differ, the_cold_402_advertises_the_enabled_rails};
use crate::metrics::ChallengeReason;
use crate::mpp_rail;
use crate::screener::RestrictedAddressScreener;
use crate::text::is_utc_timestamp;
use crate::x402;
use crate::x402::{base64_decoded, base64_encoded};

verus! {

// Dispatch.

/// Whether a request pays on the x402 rail.
pub open spec fn pays_x402(headers: Headers) -> bool {
    !is_absent(headers.entries@, "payment-signature"@)
}

/// Whether a request pays on the MPP rail.
pub open spec fn pays_mpp(headers: Headers) -> bool {
    !is_absent(headers.entries@, "authorization"@)
}

proof fn lemma_attempted(headers: Headers)
    ensures
        attempted(headers@) == (match (pays_x402(headers), pays_mpp(headers)) {
            (false, false) => Rail::Cold,
            (true, false) => Rail::X402,
            (false, true) => Rail::Mpp,
            (true, true) => Rail::Both,
        }),
{
    lemma_lookup(headers, "payment-signature"@);
    lemma_lookup(headers, "authorization"@);
}

/// A request is classified by which of the two payment headers it has, and by nothing else.
pub proof fn the_payment_headers_choose_the_rail(headers: &Headers, rail: Rail)
    requires
        call_ensures(classify, (headers,), rail),
    ensures
        rail == Rail::Cold <==> !pays_x402(*headers) && !pays_mpp(*headers),
        rail == Rail::X402 <==> pays_x402(*headers) && !pays_mpp(*headers),
        rail == Rail::Mpp <==> !pays_x402(*headers) && pays_mpp(*headers),
        rail == Rail::Both <==> pays_x402(*headers) && pays_mpp(*headers),
{
    lemma_attempted(*headers);
}

/// A request for a path that is not for sale goes nowhere. One that is unpaid, or paid on a
/// rail that is off, is challenged; one that is paid on both rails collides; and one that is
/// paid on one rail that is on goes to that rail. The endpoint is always the one sold at the
/// path.
pub proof fn a_request_goes_where_it_pays(ctx: &Context, head: &RequestHead, plan: Plan)
    requires
        call_ensures(dispatch, (ctx, head), plan),
    ensures
        match plan {
            Plan::NotSold => !is_for_sale(head.path@),
            Plan::Challenge(endpoint, reason) => {
                &&& is_sold_as(head.path@, endpoint)
                &&& match reason {
                    ChallengeReason::NoPayment => !pays_x402(head.headers) && !pays_mpp(
                        head.headers,
                    ),
                    ChallengeReason::RailDisabled => {
                        ||| pays_x402(head.headers) && !pays_mpp(head.headers) && ctx.x402 is None
                        ||| !pays_x402(head.headers) && pays_mpp(head.headers) && ctx.mpp is None
                    },
                    ChallengeReason::Collision => false,
                }
            },
            Plan::Collision(endpoint) => {
                &&& is_sold_as(head.path@, endpoint)
                &&& pays_x402(head.headers)
                &&& pays_mpp(head.headers)
            },
            Plan::X402(endpoint, _) => {
                &&& is_sold_as(head.path@, endpoint)
                &&& pays_x402(head.headers)
                &&& !pays_mpp(head.headers)
                &&& ctx.x402 is Some
            },
            Plan::Mpp(endpoint, _) => {
                &&& is_sold_as(head.path@, endpoint)
                &&& !pays_x402(head.headers)
                &&& pays_mpp(head.headers)
                &&& ctx.mpp is Some
            },
        },
{
    lemma_attempted(head.headers);
    lemma_sold(head.path@);
}

/// The endpoint that a plan is for, where it is for one.
pub open spec fn endpoint_of(plan: Plan) -> Option<Endpoint> {
    match plan {
        Plan::NotSold => None,
        Plan::Challenge(endpoint, _) => Some(endpoint),
        Plan::Collision(endpoint) => Some(endpoint),
        Plan::X402(endpoint, _) => Some(endpoint),
        Plan::Mpp(endpoint, _) => Some(endpoint),
    }
}

/// A request is for the endpoint that is found at its path.
pub proof fn a_request_is_for_what_its_path_finds(
    ctx: &Context,
    head: &RequestHead,
    plan: Plan,
    path: &str,
    found: Option<Endpoint>,
)
    requires
        call_ensures(dispatch, (ctx, head), plan),
        call_ensures(find, (path,), found),
        path@ == head.path@,
    ensures
        endpoint_of(plan) is Some <==> found is Some,
        found is Some ==> endpoint_of(plan)->0@ == found->0@,
{
}

/// Where a screener is configured, no payment goes past it on either rail: whatever the
/// request, it is at the lookup of its payer in the configured bucket, or at an answer that
/// charges nothing. Where none is, nothing is looked up.
pub proof fn a_configured_screener_is_consulted(ctx: &Context, head: &RequestHead, plan: Plan)
    requires
        call_ensures(dispatch, (ctx, head), plan),
    ensures
        ctx.screener matches Some(screener) ==> match plan {
            Plan::X402(_, x402::Step::Screen(_, lookup)) => lookup.bucket@ == screener.bucket@,
            Plan::X402(_, x402::Step::Done(answer)) => answer.charged is None
                && answer.reply.status == 402,
            Plan::X402(_, _) => false,
            Plan::Mpp(_, mpp_rail::Step::Screen(_, lookup)) => lookup.bucket@ == screener.bucket@,
            Plan::Mpp(_, mpp_rail::Step::Done(answer)) => answer.charged is None
                && answer.reply.status == 402,
            Plan::Mpp(_, _) => false,
            _ => true,
        },
        ctx.screener is None ==> match plan {
            Plan::X402(_, step) => step is Verify || step is Done,
            Plan::Mpp(_, step) => step is Charge || step is Done,
            _ => true,
        },
{
}

/// Whether a screener is the one of a context.
pub open spec fn is_screener_of(
    ctx: Context,
    screener: Option<&RestrictedAddressScreener>,
) -> bool {
    match (ctx.screener, screener) {
        (Some(own), Some(screener)) => own.bucket@ == screener.bucket@,
        (None, None) => true,
        _ => false,
    }
}

/// A rail gets the request as it came: its flow starts as it does for the request's own
/// headers, the context's own screener, and the endpoint at the path.
pub proof fn a_rail_gets_the_request_as_it_came(
    ctx: &Context,
    head: &RequestHead,
    plan: Plan,
    screener: Option<&RestrictedAddressScreener>,
    x402_step: x402::Step,
    mpp_step: mpp_rail::Step,
)
    requires
        call_ensures(dispatch, (ctx, head), plan),
        is_screener_of(*ctx, screener),
        plan matches Plan::X402(endpoint, _) ==> ctx.x402 matches Some(client) && call_ensures(
            x402::handle,
            (&client, screener, &head.headers, endpoint),
            x402_step,
        ),
        plan matches Plan::Mpp(endpoint, _) ==> ctx.mpp matches Some(client) && call_ensures(
            mpp_rail::handle,
            (&client, screener, &head.headers, endpoint),
            mpp_step,
        ),
    ensures
        plan matches Plan::X402(_, step) ==> step@ == x402_step@,
        plan matches Plan::Mpp(_, step) ==> step@ == mpp_step@,
{
}

/// The stages of a flow are seen as they are, with what they hold.
pub proof fn a_step_is_seen_as_it_is(x402_step: x402::Step, mpp_step: mpp_rail::Step)
    ensures
        match x402_step {
            x402::Step::Screen(order, lookup) => {
                &&& x402_step@ matches x402::Stage::Screen(o, l)
                &&& o.request == order.request@ && o.endpoint == order.endpoint@
                &&& l.bucket == lookup.bucket@ && l.key == lookup.key@
            },
            x402::Step::Verify(order) => {
                &&& x402_step@ matches x402::Stage::Verify(o)
                &&& o.request == order.request@ && o.endpoint == order.endpoint@
            },
            x402::Step::Search(order) => {
                &&& x402_step@ matches x402::Stage::Search(o)
                &&& o.request == order.request@ && o.endpoint == order.endpoint@
            },
            x402::Step::Settle(order, reply) => {
                &&& x402_step@ matches x402::Stage::Settle(o, r)
                &&& o.request == order.request@ && o.endpoint == order.endpoint@
                &&& r.status == reply.status && r.headers == reply.headers@ && r.body
                    == reply.body@
            },
            x402::Step::Done(answer) => {
                &&& x402_step@ matches x402::Stage::Done(a)
                &&& a.outcome == answer.outcome && a.charged == answer.charged
                &&& a.reply.status == answer.reply.status && a.reply.headers
                    == answer.reply.headers@ && a.reply.body == answer.reply.body@
            },
        },
        match mpp_step {
            mpp_rail::Step::Screen(order, lookup) => {
                &&& mpp_step@ matches mpp_rail::Stage::Screen(o, l)
                &&& o.authorization == order.authorization@ && o.endpoint == order.endpoint@
                &&& l.bucket == lookup.bucket@ && l.key == lookup.key@
            },
            mpp_rail::Step::Charge(order, charge) => {
                &&& mpp_step@ matches mpp_rail::Stage::Charge(o, c)
                &&& o.authorization == order.authorization@ && o.endpoint == order.endpoint@
                &&& c.amount == charge.amount@ && c.currency == charge.currency@
                &&& c.recipient == charge.recipient@ && c.chain_id == charge.chain_id
            },
            mpp_rail::Step::Search(order, receipt) => {
                &&& mpp_step@ matches mpp_rail::Stage::Search(o, r)
                &&& o.authorization == order.authorization@ && o.endpoint == order.endpoint@
                &&& r == receipt
            },
            mpp_rail::Step::Done(answer) => {
                &&& mpp_step@ matches mpp_rail::Stage::Done(a)
                &&& a.outcome == answer.outcome && a.charged == answer.charged
                &&& a.reply.status == answer.reply.status && a.reply.headers
                    == answer.reply.headers@ && a.reply.body == answer.reply.body@
            },
        },
{
}

/// A context has the rails that the config turns on, with their own settings, and the
/// screener it was given. It is refused only where the MPP rail is on and its chain is not
/// served.
pub proof fn a_context_has_what_is_configured(
    config: &Config,
    chain_id: Option<u64>,
    screener: Option<RestrictedAddressScreener>,
    built: Result<Context, AppError>,
)
    requires
        config.mpp is Some ==> chain_id is Some,
        call_ensures(context, (config, chain_id, screener), built),
    ensures
        built is Err <==> config.mpp is Some && !(chain_id == Some(4217u64) || (chain_id == Some(
            42431u64,
        ) && config.allow_testnet)),
        built matches Ok(ctx) ==> {
            &&& ctx.screener == screener
            &&& ctx.x402 is Some <==> config.x402 is Some
            &&& ctx.x402 matches Some(client) ==> client.allow_testnet == config.allow_testnet
            &&& ctx.mpp is Some <==> config.mpp is Some
            &&& ctx.mpp matches Some(client) ==> Some(client.chain_id) == chain_id
                && client.secret_key@ == config.mpp->0.secret_key@
        },
{
}

/// A context is refused for what its MPP rail is refused for.
pub proof fn a_context_is_refused_for_its_chain(
    config: &Config,
    chain_id: Option<u64>,
    screener: Option<RestrictedAddressScreener>,
    built: Result<Context, AppError>,
    client: Result<mpp_rail::Client, AppError>,
)
    requires
        config.mpp is Some,
        chain_id is Some,
        call_ensures(context, (config, chain_id, screener), built),
        call_ensures(
            mpp_rail::client,
            (&config.mpp->0, chain_id->0, config.allow_testnet),
            client,
        ),
    ensures
        built is Err <==> client is Err,
        built is Err ==> built->Err_0@ == client->Err_0@,
{
}

/// Paying on both rails at once is told to be a mistake of the client's.
pub proof fn a_collision_is_told(reply: Reply)
    requires
        call_ensures(collision_400, (), reply),
    ensures
        tells(reply, 400, "send exactly one payment rail, not both"@),
{
    lemma_one_header(reply, "content-type"@, encode_utf8("application/json"@));
}

// The URL that was asked for.

/// Whether a request names no host in its headers.
pub open spec fn heads_no_host(head: RequestHead) -> bool {
    says_nothing(head.headers.entries@, "host"@) || says(
        head.headers.entries@,
        "host"@,
        Seq::empty(),
    )
}

/// Whether the client addressed this host: the `Host` header says it, or, where that says
/// nothing, the request target does.
pub open spec fn addressed(head: RequestHead, host: Seq<char>) -> bool {
    ||| host.len() > 0 && says(head.headers.entries@, "host"@, host)
    ||| heads_no_host(head) && head.authority is Some && head.authority->0@ == host
}

/// Whether the client addressed no host.
pub open spec fn addressed_nobody(head: RequestHead) -> bool {
    heads_no_host(head) && head.authority is None
}

/// Whether the client used this scheme: a proxy says so, or, where none does, the request
/// target, or, where that does not, it is plain HTTP.
pub open spec fn used(head: RequestHead, scheme: Seq<char>) -> bool {
    if says_nothing(head.headers.entries@, "x-forwarded-proto"@) {
        match head.scheme {
            Some(own) => scheme == own@,
            None => scheme == seq!['h', 't', 't', 'p'],
        }
    } else {
        says(head.headers.entries@, "x-forwarded-proto"@, scheme)
    }
}

/// Whether a request is for this path and query, character for character.
pub open spec fn targets(head: RequestHead, target: Seq<char>) -> bool {
    match head.path_and_query {
        Some(own) => target == own@,
        None => target == seq!['/'],
    }
}

proof fn lemma_host(head: RequestHead)
    ensures
        match crate::dispatch::host_of(head) {
            Some(host) => addressed(head, host),
            None => addressed_nobody(head),
        },
        forall|host: Seq<char>| #[trigger]
            addressed(head, host) ==> crate::dispatch::host_of(head) == Some(host),
        addressed_nobody(head) ==> crate::dispatch::host_of(head) is None,
{
    lemma_text(head.headers, "host"@);
    if let Some(host) = crate::http::text_of(head.headers@, "host"@) {
        if host.len() == 0 {
            assert(host =~= Seq::empty());
        }
    }
}

proof fn lemma_scheme(head: RequestHead)
    ensures
        used(head, crate::dispatch::scheme_of(head)),
        forall|scheme: Seq<char>| #[trigger]
            used(head, scheme) ==> crate::dispatch::scheme_of(head) == scheme,
{
    lemma_text(head.headers, "x-forwarded-proto"@);
    reveal_strlit("http");
    assert("http"@ =~= seq!['h', 't', 't', 'p']);
}

/// The host is the one the client addressed.
pub proof fn the_host_is_the_one_addressed(head: &RequestHead, host: Option<String>)
    requires
        call_ensures(crate::dispatch::host, (head,), host),
    ensures
        match host {
            Some(host) => addressed(*head, host@),
            None => addressed_nobody(*head),
        },
{
    lemma_host(*head);
}

/// The scheme is the one the client used.
pub proof fn the_scheme_is_the_one_used(head: &RequestHead, scheme: String)
    requires
        call_ensures(crate::dispatch::scheme, (head,), scheme),
    ensures
        used(*head, scheme@),
{
    lemma_scheme(*head);
}

/// The URL is what the client asked for: its path and query stand at the end, character for
/// character, behind the scheme and the host where a host is known, and alone where none is.
pub proof fn the_url_is_what_was_asked_for(
    head: &RequestHead,
    url: String,
    scheme: Seq<char>,
    host: Seq<char>,
    target: Seq<char>,
)
    requires
        call_ensures(absolute_uri, (head,), url),
        targets(*head, target),
    ensures
        url@.len() >= target.len(),
        url@.subrange(url@.len() - target.len(), url@.len() as int) == target,
        addressed_nobody(*head) ==> url@ == target,
        addressed(*head, host) && used(*head, scheme) ==> url@ == scheme + seq![':', '/', '/']
            + host + target,
{
    lemma_host(*head);
    lemma_scheme(*head);
    reveal_strlit("/");
    reveal_strlit("://");
    assert("/"@ =~= seq!['/']);
    assert("://"@ =~= seq![':', '/', '/']);
    assert(crate::dispatch::target(*head) == target);
    assert(url@.subrange(url@.len() - target.len(), url@.len() as int) =~= target);
}

/// Requests for different targets are for different URLs, whatever else they have in common.
pub proof fn targets_are_told_apart(
    head: &RequestHead,
    other: &RequestHead,
    url: String,
    other_url: String,
    target: Seq<char>,
    other_target: Seq<char>,
)
    requires
        call_ensures(absolute_uri, (head,), url),
        call_ensures(absolute_uri, (other,), other_url),
        targets(*head, target),
        targets(*other, other_target),
        target.len() == other_target.len(),
        target != other_target,
    ensures
        url@ != other_url@,
{
    the_url_is_what_was_asked_for(head, url, Seq::empty(), Seq::empty(), target);
    the_url_is_what_was_asked_for(other, other_url, Seq::empty(), Seq::empty(), other_target);
}

// The challenge.

/// Whether these are the offers for a price.
pub open spec fn are_offers(offers: Seq<Tree>, units: u64, allow_testnet: bool) -> bool {
    &&& offers.len() == if allow_testnet { 2int } else { 1int }
    &&& is_base_offer(offers[0], units)
    &&& allow_testnet ==> is_sepolia_offer(offers[1], units)
}

/// The members of an envelope that every challenge has.
pub open spec fn envelope_of(
    url: Seq<char>,
    description: Seq<char>,
    offers: Seq<Tree>,
) -> Seq<(Seq<char>, Tree)> {
    seq![
        ("x402Version"@, Tree::Number("2"@)),
        ("error"@, Tree::Text("Payment required"@)),
        (
            "resource"@,
            Tree::Object(
                seq![
                    ("url"@, Tree::Text(url)),
                    ("description"@, Tree::Text(description)),
                    ("mimeType"@, Tree::Text("application/json"@)),
                ],
            ),
        ),
        ("accepts"@, Tree::List(offers)),
    ]
}

/// The same with the method of the request bound to it.
pub open spec fn bound_envelope_of(
    url: Seq<char>,
    description: Seq<char>,
    offers: Seq<Tree>,
    method: Seq<char>,
) -> Seq<(Seq<char>, Tree)> {
    let info = Tree::Object(seq![("method"@, Tree::Text(method))]);
    let binding = Tree::Object(seq![("mppx"@, Tree::Object(seq![("info"@, info)]))]);
    envelope_of(url, description, offers).push(("extensions"@, binding))
}

/// A challenge names the resource it was given, the label of its path, and the offers it was
/// given, and nothing else.
pub proof fn a_challenge_names_the_resource(
    accepts: &Vec<Value>,
    resource: &str,
    path: &str,
    document: Value,
    label: &'static str,
)
    requires
        call_ensures(x402::challenge, (accepts, resource, path), document),
        call_ensures(endpoint_description, (path,), label),
    ensures
        json_tree(document) == Tree::Object(
            envelope_of(resource@, label@, json_trees(accepts@)),
        ),
{
}

/// What is sent of it has the method of the request bound to it, and is the base64 of its
/// JSON.
pub proof fn a_challenge_is_sent_with_the_method(
    accepts: &Vec<Value>,
    resource: &str,
    path: &str,
    method: &str,
    value: String,
    label: &'static str,
)
    requires
        call_ensures(x402::challenge_header, (accepts, resource, path, method), value),
        call_ensures(endpoint_description, (path,), label),
    ensures
        value@ == base64_encoded(
            encode_utf8(
                json_text(
                    Tree::Object(
                        bound_envelope_of(resource@, label@, json_trees(accepts@), method@),
                    ),
                ),
            ),
        ),
{
    lemma_bound_envelope(resource@, path@, json_trees(accepts@), method@);
}

proof fn lemma_bound_envelope(
    url: Seq<char>,
    path: Seq<char>,
    offers: Seq<Tree>,
    method: Seq<char>,
)
    ensures
        x402::challenge_document(offers, url, path, x402::route_binding(method)) == Tree::Object(
            bound_envelope_of(url, crate::endpoints::described_as(path), offers, method),
        ),
{
    let document = x402::challenge_document(offers, url, path, x402::route_binding(method));
    assert(document->Object_0 =~= bound_envelope_of(
        url,
        crate::endpoints::described_as(path),
        offers,
        method,
    ));
}

/// An unpaid request is answered with a `402` without a body. Its x402 header is there
/// exactly where that rail is on, and reads back as the envelope of the URL that was asked
/// for, the label of the path, the offers for the endpoint's price, and the request's method.
/// No header stands in it but those of the two rails.
pub proof fn an_unpaid_request_is_offered_its_price(
    ctx: &Context,
    head: &RequestHead,
    endpoint: &Endpoint,
    expires: &str,
    reply: Reply,
    url: String,
    path: &str,
    label: &'static str,
)
    requires
        call_ensures(cold_402, (ctx, head, endpoint, expires), reply),
        call_ensures(absolute_uri, (head,), url),
        path@ == head.path@,
        call_ensures(endpoint_description, (path,), label),
    ensures
        reply.status == 402,
        reply.body@.len() == 0,
        forall|i: int|
            0 <= i < reply.headers.entries@.len() ==> {
                let name = (#[trigger] reply.headers.entries@[i]).name@;
                name == "payment-required"@ || name == "www-authenticate"@
            },
        reply.headers.entries@.len() <= 2,
        match ctx.x402 {
            Some(client) => exists|value: Seq<u8>, bytes: Seq<u8>, offers: Seq<Tree>|
                {
                    &&& #[trigger] has(reply.headers.entries@, "payment-required"@, value)
                    &&& base64_decoded(value) == Some(bytes)
                    &&& #[trigger] are_offers(
                        offers,
                        endpoint.price_base_units,
                        client.allow_testnet,
                    )
                    &&& #[trigger] json_parse(bytes) == Some(
                        Tree::Object(bound_envelope_of(url@, label@, offers, head.method@)),
                    )
                },
            None => is_absent(reply.headers.entries@, "payment-required"@),
        },
{
    the_cold_402_advertises_the_enabled_rails(ctx.x402, ctx.mpp, *head, endpoint@, expires@);
    lemma_lookup(reply.headers, "payment-required"@);
    lemma_cold_headers(ctx, head, endpoint, expires, reply);
    if let Some(client) = ctx.x402 {
        let offers = x402::offers(endpoint.price_base_units, client.allow_testnet);
        lemma_offers(endpoint.price_base_units, client.allow_testnet);
        lemma_bound_envelope(url@, head.path@, offers, head.method@);
        let value = crate::http::lookup(reply.headers@, "payment-required"@)->0;
        let bytes = base64_decoded(value)->0;
        assert(has(reply.headers.entries@, "payment-required"@, value));
        assert(are_offers(offers, endpoint.price_base_units, client.allow_testnet));
        assert(json_parse(bytes) == Some(
            Tree::Object(bound_envelope_of(url@, label@, offers, head.method@)),
        ));
    }
}

proof fn lemma_cold_headers(
    ctx: &Context,
    head: &RequestHead,
    endpoint: &Endpoint,
    expires: &str,
    reply: Reply,
)
    requires
        call_ensures(cold_402, (ctx, head, endpoint, expires), reply),
    ensures
        reply.headers.entries@.len() <= 2,
        forall|i: int|
            0 <= i < reply.headers.entries@.len() ==> {
                let name = (#[trigger] reply.headers.entries@[i]).name@;
                name == "payment-required"@ || name == "www-authenticate"@
            },
{
    reveal_with_fuel(without, 3);
    lemma_challenge_headers_differ();
    assert forall|i: int| 0 <= i < reply.headers.entries@.len() implies {
        let name = (#[trigger] reply.headers.entries@[i]).name@;
        name == "payment-required"@ || name == "www-authenticate"@
    } by {
        assert(reply.headers@[i].0 == reply.headers.entries@[i].name@);
    }
}

/// Whether a challenge was made, and can be sent: no byte of it is a control character but
/// tabs.
pub open spec fn can_be_sent(challenge: Option<String>) -> bool {
    challenge is Some && forall|i: int|
        0 <= i < encode_utf8(challenge->0@).len() ==> {
            let byte = #[trigger] encode_utf8(challenge->0@)[i];
            byte == 9 || (byte > 31 && byte != 127)
        }
}

/// The MPP header of the cold `402` is there only where that rail is on, and then says what
/// the rail's own challenge for the endpoint's price says, wherever that can be sent. It
/// reads back as a challenge for the price on the rail's chain, until the time it was given.
pub proof fn an_unpaid_request_is_challenged_for_its_price(
    ctx: &Context,
    head: &RequestHead,
    endpoint: &Endpoint,
    expires: &str,
    reply: Reply,
    challenge: Option<String>,
)
    requires
        call_ensures(cold_402, (ctx, head, endpoint, expires), reply),
        ctx.mpp matches Some(client) ==> call_ensures(
            mpp_rail::Client::challenge,
            (&client, endpoint.price_base_units, expires),
            challenge,
        ),
    ensures
        match ctx.mpp {
            Some(client) => {
                &&& can_be_sent(challenge) ==> says(
                    reply.headers.entries@,
                    "www-authenticate"@,
                    challenge->0@,
                )
                &&& !can_be_sent(challenge) ==> is_absent(
                    reply.headers.entries@,
                    "www-authenticate"@,
                )
                &&& is_utc_timestamp(expires@) && client.chain_id <= 0x1f_ffff_ffff_ffff
                    ==> challenge is Some && says(
                    reply.headers.entries@,
                    "www-authenticate"@,
                    challenge->0@,
                ) && challenges(
                    challenge->0@,
                    client.chain_id,
                    endpoint.price_base_units,
                    expires@,
                )
            },
            None => is_absent(reply.headers.entries@, "www-authenticate"@),
        },
{
    the_cold_402_advertises_the_enabled_rails(ctx.x402, ctx.mpp, *head, endpoint@, expires@);
    lemma_lookup(reply.headers, "www-authenticate"@);
    if let Some(text) = challenge {
        let bytes = encode_utf8(text@);
        if is_header_value(bytes) {
            assert(can_be_sent(challenge)) by {
                assert forall|i: int| 0 <= i < bytes.len() implies {
                    let byte = #[trigger] bytes[i];
                    byte == 9 || (byte > 31 && byte != 127)
                } by {
                    assert(crate::http::is_header_byte(bytes[i]));
                }
            }
        } else {
            let i = choose|i: int|
                0 <= i < bytes.len() && !crate::http::is_header_byte(#[trigger] bytes[i]);
            assert(!(bytes[i] == 9 || (bytes[i] > 31 && bytes[i] != 127)));
        }
    }
    if let Some(client) = ctx.mpp {
        if is_utc_timestamp(expires@) && client.chain_id <= 0x1f_ffff_ffff_ffff {
            lemma_challenges(
                challenge->0@,
                client.chain_id,
                endpoint.price_base_units,
                expires@,
            );
        }
    }
}

} // verus!
