//! Payment-rail dispatch: classify each request by its payment headers.
//!
//! The payment handshake is dual-rail, so every request falls into one of four states,
//! decided purely by which payment headers are present:
//!
//! * **cold** (no payment proof): answered with the `402` challenge
//! * **x402** (`PAYMENT-SIGNATURE`): run through the x402 verify/settle flow
//! * **MPP** (`Authorization`): run through the MPP verify flow
//! * **collision** (both rails at once): rejected with `400`
//!
//! A request that pays on a rail this deployment turned off is answered with the `402`
//! challenge of the rails that are on.

use vstd::prelude::*;
use vstd::string::*;
use vstd::utf8::*;

use crate::config::Config;
use crate::endpoints::{find, sold, Endpoint, EndpointView};
use crate::error::{error_reply, AppError};
use crate::http::{
    bare, bytes_of, is_header_value, lookup, optional_text, sendable, text_of, with_header,
    Headers, Reply, ReplyView, RequestHead,
};
use crate::laws::{lemma_challenge_is_readable, the_cold_402_advertises_the_enabled_rails};
use crate::metrics::ChallengeReason;
use crate::mpp_rail;
use crate::mpp_rail::{
    challenge_for, charge_on, is_our_challenge, lemma_timestamp_is_sendable, AUTHORIZATION,
    MAX_EXACT, WWW_AUTHENTICATE,
};
use crate::screener::RestrictedAddressScreener;
use crate::text::{is_utc_timestamp, starts_with};
use crate::x402;
use crate::x402::{
    challenge_document, challenge_value, offers, read_back, route_binding, PAYMENT_REQUIRED_HEADER,
    V2_PAYMENT_HEADER,
};

verus! {

/// The payment rail a request is attempting, determined solely by which payment headers it
/// carries.
#[derive(Debug, Clone, Copy, PartialEq, Eq, Structural)]
pub enum Rail {
    /// No payment proof: a cold request, answered with the `402` challenge.
    Cold,
    /// An x402 attempt (`PAYMENT-SIGNATURE` present).
    X402,
    /// An MPP attempt (`Authorization` present).
    Mpp,
    /// Both rails at once: a collision, rejected with `400`.
    Both,
}

/// The rail that headers attempt.
pub open spec fn attempted(headers: Seq<(Seq<char>, Seq<u8>)>) -> Rail {
    match (
        lookup(headers, V2_PAYMENT_HEADER@) is Some,
        lookup(headers, AUTHORIZATION@) is Some,
    ) {
        (false, false) => Rail::Cold,
        (true, false) => Rail::X402,
        (false, true) => Rail::Mpp,
        (true, true) => Rail::Both,
    }
}

/// Classify a request by which payment headers it carries. The router names no headers
/// itself; it asks each rail module whether its proof is present.
pub fn classify(headers: &Headers) -> (rail: Rail)
    ensures
        rail == attempted(headers@),
{
    match (x402::has_payment(headers), mpp_rail::has_credential(headers)) {
        (false, false) => Rail::Cold,
        (true, false) => Rail::X402,
        (false, true) => Rail::Mpp,
        (true, true) => Rail::Both,
    }
}

/// What dispatch decides by: one field per payment rail, `None` where the deployment turned
/// it off, built once at startup.
pub struct Context {
    pub x402: Option<x402::Client>,
    pub mpp: Option<mpp_rail::Client>,
    /// Payer screener, shared by every rail. `None` when screening is not configured.
    pub screener: Option<RestrictedAddressScreener>,
}

/// The bucket of the context's screener, where there is one.
pub open spec fn screening_bucket(ctx: Context) -> Option<Seq<char>> {
    match ctx.screener {
        Some(screener) => Some(screener.bucket@),
        None => None,
    }
}

/// Assemble the dispatch context from config, the chain the MPP rail's RPC endpoint reported
/// where that rail is on, and the already-built screener.
pub fn context(
    config: &Config,
    chain_id: Option<u64>,
    screener: Option<RestrictedAddressScreener>,
) -> (built: Result<Context, AppError>)
    requires
        config.mpp is Some ==> chain_id is Some,
    ensures
        match built {
            Ok(ctx) => {
                &&& ctx.screener == screener
                &&& ctx.x402 == (if config.x402 is Some {
                    Some(x402::Client { allow_testnet: config.allow_testnet })
                } else {
                    None
                })
                &&& match config.mpp {
                    Some(rail) => {
                        &&& mpp_rail::unserved(chain_id->0, config.allow_testnet) is None
                        &&& ctx.mpp matches Some(client)
                        &&& client.chain_id == chain_id->0
                        &&& client.secret_key@ == rail.secret_key@
                    },
                    None => ctx.mpp is None,
                }
            },
            Err(err) => config.mpp is Some && mpp_rail::unserved(
                chain_id->0,
                config.allow_testnet,
            ) == Some(err@),
        },
{
    let x402 = match &config.x402 {
        Some(_) => Some(x402::Client { allow_testnet: config.allow_testnet }),
        None => None,
    };
    let mpp = match (&config.mpp, chain_id) {
        (Some(rail), Some(chain_id)) => Some(
            mpp_rail::client(rail, chain_id, config.allow_testnet)?,
        ),
        _ => None,
    };
    Ok(Context { x402, mpp, screener })
}

/// The path and query a request names.
pub open spec fn target(head: RequestHead) -> Seq<char> {
    match head.path_and_query {
        Some(target) => target@,
        None => "/"@,
    }
}

/// The host the client addressed: the `Host` header when non-empty, else the URI's
/// authority.
pub open spec fn host_of(head: RequestHead) -> Option<Seq<char>> {
    match text_of(head.headers@, "host"@) {
        Some(host) => if host.len() > 0 {
            Some(host)
        } else {
            optional_text(head.authority)
        },
        None => optional_text(head.authority),
    }
}

/// The scheme the client used: `X-Forwarded-Proto` when a TLS-terminating proxy sets it,
/// else the URI's scheme, else `http`.
pub open spec fn scheme_of(head: RequestHead) -> Seq<char> {
    match text_of(head.headers@, "x-forwarded-proto"@) {
        Some(scheme) => scheme,
        None => match head.scheme {
            Some(scheme) => scheme@,
            None => "http"@,
        },
    }
}

/// The absolute URL the client requested, or path and query alone where no host is known.
pub open spec fn requested_url(head: RequestHead) -> Seq<char> {
    match host_of(head) {
        Some(host) => scheme_of(head) + "://"@ + host + target(head),
        None => target(head),
    }
}

/// A copy of an optional text.
fn copied(text: &Option<String>) -> (copy: Option<String>)
    ensures
        optional_text(copy) == optional_text(*text),
{
    match text {
        Some(text) => Some(text.clone()),
        None => None,
    }
}

/// The host the client addressed: the `Host` header when non-empty, else the URI's
/// authority.
pub fn host(head: &RequestHead) -> (host: Option<String>)
    ensures
        optional_text(host) == host_of(*head),
{
    match head.headers.text("host") {
        Some(host) => {
            if host.as_str().is_empty() {
                copied(&head.authority)
            } else {
                Some(host)
            }
        },
        None => copied(&head.authority),
    }
}

/// The scheme the client used: `X-Forwarded-Proto` when a TLS-terminating proxy sets it,
/// else the URI's scheme, else `http`.
pub fn scheme(head: &RequestHead) -> (scheme: String)
    ensures
        scheme@ == scheme_of(*head),
{
    match head.headers.text("x-forwarded-proto") {
        Some(scheme) => scheme,
        None => match &head.scheme {
            Some(scheme) => scheme.clone(),
            None => "http".to_owned(),
        },
    }
}

/// Reconstruct the absolute URL the client requested for the cold `402`'s `resource`. The
/// query is kept verbatim, because a client compares this against the URL it asked for and
/// will not pay a challenge naming a different one. A request with no host gets the bare
/// path and query.
pub fn absolute_uri(head: &RequestHead) -> (url: String)
    ensures
        url@ == requested_url(*head),
{
    let target = match &head.path_and_query {
        Some(target) => target.clone(),
        None => "/".to_owned(),
    };
    match host(head) {
        Some(host) => {
            let mut url = scheme(head);
            url.append("://");
            url.append(&host);
            url.append(&target);
            url
        },
        None => target,
    }
}

/// The cold `402`: one header from each rail that is on, and no body. The MPP challenge is
/// left out where it could not be built or sent.
pub open spec fn cold_reply(
    x402: Option<x402::Client>,
    mpp: Option<mpp_rail::Client>,
    head: RequestHead,
    endpoint: EndpointView,
    expires: Seq<char>,
) -> ReplyView {
    let base = bare(402);
    let offered = match x402 {
        Some(client) => with_header(
            base,
            PAYMENT_REQUIRED_HEADER@,
            encode_utf8(
                challenge_value(
                    offers(endpoint.price_base_units, client.allow_testnet),
                    requested_url(head),
                    head.path@,
                    head.method@,
                ),
            ),
        ),
        None => base,
    };
    match mpp_challenge(mpp, endpoint, expires) {
        Some(challenge) => with_header(offered, WWW_AUTHENTICATE@, encode_utf8(challenge)),
        None => offered,
    }
}

/// The MPP challenge of the cold `402`, where the rail is on and the challenge can be sent.
pub open spec fn mpp_challenge(
    mpp: Option<mpp_rail::Client>,
    endpoint: EndpointView,
    expires: Seq<char>,
) -> Option<Seq<char>> {
    match mpp {
        Some(client) => match challenge_for(client, endpoint.price_base_units, expires) {
            Some(challenge) => if is_header_value(encode_utf8(challenge)) {
                Some(challenge)
            } else {
                None
            },
            None => None,
        },
        None => None,
    }
}

/// Build the cold `402` from the rails' challenges, one header each. The body stays empty,
/// since V2 clients read only the headers:
///
/// * x402: the V2 payment requirements in `Payment-Required`, echoing the requested
///   resource and method back to the client.
/// * MPP: the `WWW-Authenticate: Payment` challenge, which is minted fresh for each request
///   because it is signed and expires. Its time of expiry is handed in.
///
/// A rail that is off or cannot produce its challenge is left out, so the `402` still
/// advertises whatever the other rail offers. What stands in `Payment-Required` reads back
/// as the envelope of the offers a payment is verified against, and what stands in
/// `WWW-Authenticate` as the charge a credential is verified against.
pub fn cold_402(
    ctx: &Context,
    head: &RequestHead,
    endpoint: &Endpoint,
    expires: &str,
) -> (reply: Reply)
    ensures
        reply@ == cold_reply(ctx.x402, ctx.mpp, *head, endpoint@, expires@),
        ctx.mpp matches Some(client) ==> is_utc_timestamp(expires@) && client.chain_id <= MAX_EXACT
            ==> {
            &&& mpp_challenge(ctx.mpp, endpoint@, expires@) matches Some(challenge)
            &&& lookup(reply@.headers, WWW_AUTHENTICATE@) == Some(encode_utf8(challenge))
            &&& starts_with(challenge, "Payment "@)
            &&& is_our_challenge(
                challenge,
                charge_on(client.chain_id, endpoint.price_base_units),
                expires@,
            )
        },
        ctx.x402 matches Some(client) ==> read_back(
            lookup(reply@.headers, PAYMENT_REQUIRED_HEADER@),
        ) == Some(
            challenge_document(
                offers(endpoint.price_base_units, client.allow_testnet),
                requested_url(*head),
                head.path@,
                route_binding(head.method@),
            ),
        ),
{
    let mut reply = Reply::bare(402);
    match &ctx.x402 {
        Some(client) => {
            let accepts = x402::accepts(endpoint.price_base_units, client.allow_testnet);
            let value = x402::challenge_header(
                &accepts,
                &absolute_uri(head),
                &head.path,
                &head.method,
            );
            reply.headers.insert(PAYMENT_REQUIRED_HEADER, bytes_of(&value));
            proof {
                lemma_challenge_is_readable(
                    endpoint.price_base_units,
                    client.allow_testnet,
                    requested_url(*head),
                    head.path@,
                    head.method@,
                );
            }
        },
        None => {},
    }
    match &ctx.mpp {
        Some(client) => {
            proof {
                if is_utc_timestamp(expires@) {
                    lemma_timestamp_is_sendable(expires@);
                }
            }
            match client.challenge(endpoint.price_base_units, expires) {
                Some(challenge) => {
                    if sendable(&challenge) {
                        reply.headers.insert(WWW_AUTHENTICATE, bytes_of(&challenge));
                    }
                },
                None => {},
            }
        },
        None => {},
    }
    proof {
        the_cold_402_advertises_the_enabled_rails(
            ctx.x402,
            ctx.mpp,
            *head,
            endpoint@,
            expires@,
        );
    }
    reply
}

/// The collision `400`.
pub open spec fn collision_reply() -> ReplyView {
    error_reply(400, "send exactly one payment rail, not both"@)
}

/// Collision `400`: both rails presented at once. Reuses the [`AppError`] envelope.
pub fn collision_400() -> (reply: Reply)
    ensures
        reply@ == collision_reply(),
{
    AppError::BadRequest("send exactly one payment rail, not both".to_owned()).into_response()
}

/// What dispatch decided on a request.
pub enum Plan {
    /// The path is not sold.
    NotSold,
    /// Answer with the cold `402` ([`cold_402`]), for this reason.
    Challenge(Endpoint, ChallengeReason),
    /// Answer with the collision `400` ([`collision_400`]).
    Collision(Endpoint),
    /// Run the x402 pay flow from this step.
    X402(Endpoint, x402::Step),
    /// Run the MPP pay flow from this step.
    Mpp(Endpoint, mpp_rail::Step),
}

/// The mathematical value of a [`Plan`].
#[verifier::ext_equal]
pub enum PlanView {
    NotSold,
    Challenge(EndpointView, ChallengeReason),
    Collision(EndpointView),
    X402(EndpointView, x402::Stage),
    Mpp(EndpointView, mpp_rail::Stage),
}

impl View for Plan {
    type V = PlanView;

    open spec fn view(&self) -> PlanView {
        match self {
            Plan::NotSold => PlanView::NotSold,
            Plan::Challenge(endpoint, reason) => PlanView::Challenge(endpoint@, *reason),
            Plan::Collision(endpoint) => PlanView::Collision(endpoint@),
            Plan::X402(endpoint, step) => PlanView::X402(endpoint@, step@),
            Plan::Mpp(endpoint, step) => PlanView::Mpp(endpoint@, step@),
        }
    }
}

/// What dispatch decides on a request for `path` with these headers.
pub open spec fn planned(
    x402: Option<x402::Client>,
    mpp: Option<mpp_rail::Client>,
    bucket: Option<Seq<char>>,
    path: Seq<char>,
    headers: Seq<(Seq<char>, Seq<u8>)>,
) -> PlanView {
    match sold(path) {
        None => PlanView::NotSold,
        Some(endpoint) => match attempted(headers) {
            Rail::Cold => PlanView::Challenge(endpoint, ChallengeReason::NoPayment),
            Rail::Both => PlanView::Collision(endpoint),
            Rail::X402 => match x402 {
                Some(client) => PlanView::X402(
                    endpoint,
                    x402::start(headers, endpoint, client.allow_testnet, bucket),
                ),
                None => PlanView::Challenge(endpoint, ChallengeReason::RailDisabled),
            },
            Rail::Mpp => match mpp {
                Some(client) => PlanView::Mpp(
                    endpoint,
                    mpp_rail::start(headers, endpoint, client.chain_id, bucket),
                ),
                None => PlanView::Challenge(endpoint, ChallengeReason::RailDisabled),
            },
        },
    }
}

/// Dispatch a request for the paid surface: classify it by its payment headers and route
/// each state to its rail. The router decides which rail runs, never how a rail verifies.
pub fn dispatch(ctx: &Context, head: &RequestHead) -> (plan: Plan)
    ensures
        plan@ == planned(ctx.x402, ctx.mpp, screening_bucket(*ctx), head.path@, head.headers@),
{
    let endpoint = match find(&head.path) {
        Some(endpoint) => endpoint,
        None => {
            return Plan::NotSold;
        },
    };
    match classify(&head.headers) {
        Rail::Cold => Plan::Challenge(endpoint, ChallengeReason::NoPayment),
        Rail::Both => Plan::Collision(endpoint),
        Rail::X402 => match &ctx.x402 {
            Some(client) => Plan::X402(
                endpoint,
                x402::handle(client, ctx.screener.as_ref(), &head.headers, endpoint),
            ),
            None => Plan::Challenge(endpoint, ChallengeReason::RailDisabled),
        },
        Rail::Mpp => match &ctx.mpp {
            Some(client) => Plan::Mpp(
                endpoint,
                mpp_rail::handle(client, ctx.screener.as_ref(), &head.headers, endpoint),
            ),
            None => Plan::Challenge(endpoint, ChallengeReason::RailDisabled),
        },
    }
}

} // verus!
