//! What of a request is recorded: how dispatch decided, how a payment went, and what the
//! search gave.

use vstd::prelude::*;

use crate::dispatch::{Plan, PlanView};
use crate::endpoints::{Endpoint, EndpointView};
use crate::error::TransportError;
use crate::laws::{
    mpp_answer, mpp_charges_before_it_serves, mpp_charging, mpp_comes_through, mpp_distance,
    mpp_next, x402_answer, x402_charges_only_for_what_is_served, x402_comes_through, x402_distance,
    x402_next, x402_settling, x402_verifying, MppWorld, X402World,
};
use crate::metrics::{
    charge_labels, endpoint_label, increased, path_label, payment_labels, with_challenge,
    with_payment, with_step, with_upstream, ChallengeReason, Metrics, MetricsView, PaymentRail, PaymentStep,
};
use crate::mpp_rail;
use crate::payment::{Answer, AnswerView, Outcome};
use crate::search::{search_label, upstream_status, Fetched};
use crate::x402;

verus! {

/// What is recorded after dispatch decided on a request: a challenge or a collision is
/// counted with its reason, and a payment only when it has ended.
pub open spec fn with_plan(recorded: MetricsView, plan: PlanView) -> MetricsView {
    match plan {
        PlanView::Challenge(endpoint, reason) => with_challenge(recorded, endpoint.path, reason),
        PlanView::Collision(endpoint) => with_challenge(
            recorded,
            endpoint.path,
            ChallengeReason::Collision,
        ),
        _ => recorded,
    }
}

/// Record how dispatch decided on a request.
pub fn record_plan(metrics: &mut Metrics, plan: &Plan)
    requires
        old(metrics).wf(),
    ensures
        final(metrics).wf(),
        final(metrics)@ == with_plan(old(metrics)@, plan@),
{
    match plan {
        Plan::Challenge(endpoint, reason) => metrics.record_challenge(endpoint.path, *reason),
        Plan::Collision(endpoint) => metrics.record_challenge(
            endpoint.path,
            ChallengeReason::Collision,
        ),
        _ => {},
    }
}

/// What is recorded after a payment for an endpoint ended.
pub open spec fn with_answer(
    recorded: MetricsView,
    rail: PaymentRail,
    endpoint: EndpointView,
    answer: AnswerView,
) -> MetricsView {
    with_payment(recorded, rail, endpoint.path, answer.outcome, answer.charged)
}

/// Record how a payment for an endpoint ended.
pub fn record_answer(
    metrics: &mut Metrics,
    rail: PaymentRail,
    endpoint: &Endpoint,
    answer: &Answer,
)
    requires
        old(metrics).wf(),
    ensures
        final(metrics).wf(),
        final(metrics)@ == with_answer(old(metrics)@, rail, endpoint@, answer@),
{
    metrics.record_payment(rail, endpoint.path, answer.outcome, answer.charged);
}

/// What is recorded after a call that a payment waited for, where it is one that is timed.
pub open spec fn with_call(
    recorded: MetricsView,
    rail: PaymentRail,
    step: Option<PaymentStep>,
    elapsed_nanos: u64,
) -> MetricsView {
    match step {
        Some(step) => with_step(recorded, rail, step, elapsed_nanos),
        None => recorded,
    }
}

/// Record how long a call took that a payment waited for, whether or not it went well.
pub fn record_call(
    metrics: &mut Metrics,
    rail: PaymentRail,
    step: Option<PaymentStep>,
    elapsed_nanos: u64,
)
    requires
        old(metrics).wf(),
    ensures
        final(metrics).wf(),
        final(metrics)@ == with_call(old(metrics)@, rail, step, elapsed_nanos),
{
    match step {
        Some(step) => metrics.record_step(rail, step, elapsed_nanos),
        None => {},
    }
}

/// Record one call to the Brave Search API and what it gave.
pub fn record_search(
    metrics: &mut Metrics,
    path: &str,
    fetched: &Result<Fetched, TransportError>,
    elapsed_nanos: u64,
)
    requires
        old(metrics).wf(),
    ensures
        final(metrics).wf(),
        final(metrics)@ == with_upstream(
            old(metrics)@,
            path_label(path@),
            search_label(*fetched),
            elapsed_nanos,
        ),
{
    let status = upstream_status(fetched);
    metrics.record_upstream(endpoint_label(path), &status, elapsed_nanos);
}

/// Every run of the x402 flow is counted once, under its outcome, and only a settled one adds
/// to what was charged: the price of its endpoint.
pub proof fn an_x402_run_records_what_it_charged(
    recorded: MetricsView,
    headers: Seq<(Seq<char>, Seq<u8>)>,
    endpoint: EndpointView,
    allow_testnet: bool,
    bucket: Option<Seq<char>>,
    world: X402World,
)
    ensures
        ({
            let answer = x402_answer(
                x402::start(headers, endpoint, allow_testnet, bucket),
                world,
            );
            let after = with_answer(recorded, PaymentRail::X402, endpoint, answer);
            after == (MetricsView {
                payments: increased(
                    recorded.payments,
                    payment_labels(PaymentRail::X402, endpoint.path, answer.outcome),
                    1,
                ),
                charged: if answer.outcome == Outcome::Settled {
                    increased(
                        recorded.charged,
                        charge_labels(PaymentRail::X402, endpoint.path),
                        endpoint.price_base_units,
                    )
                } else {
                    recorded.charged
                },
                ..recorded
            })
        }),
{
    x402_charges_only_for_what_is_served(headers, endpoint, allow_testnet, bucket, world);
}

/// Every run of the MPP flow is counted once, under its outcome, and only a settled one adds
/// to what was charged: the price of its endpoint.
pub proof fn an_mpp_run_records_what_it_charged(
    recorded: MetricsView,
    headers: Seq<(Seq<char>, Seq<u8>)>,
    endpoint: EndpointView,
    chain_id: u64,
    bucket: Option<Seq<char>>,
    world: MppWorld,
)
    ensures
        ({
            let answer = mpp_answer(
                chain_id,
                mpp_rail::start(headers, endpoint, chain_id, bucket),
                world,
            );
            let after = with_answer(recorded, PaymentRail::Mpp, endpoint, answer);
            after == (MetricsView {
                payments: increased(
                    recorded.payments,
                    payment_labels(PaymentRail::Mpp, endpoint.path, answer.outcome),
                    1,
                ),
                charged: if answer.outcome == Outcome::Settled {
                    increased(
                        recorded.charged,
                        charge_labels(PaymentRail::Mpp, endpoint.path),
                        endpoint.price_base_units,
                    )
                } else {
                    recorded.charged
                },
                ..recorded
            })
        }),
{
    mpp_charges_before_it_serves(headers, endpoint, chain_id, bucket, world);
}

/// The steps that are timed in a run of the x402 flow that starts at `stage`, in order.
pub open spec fn x402_timed(stage: x402::Stage, world: X402World) -> Seq<PaymentStep>
    decreases x402_distance(stage),
{
    if stage is Done {
        Seq::empty()
    } else {
        let later = x402_timed(x402_next(stage, world), world);
        match x402::timed_at(stage) {
            Some(step) => seq![step] + later,
            None => later,
        }
    }
}

/// Each call to the facilitator in a run of the x402 flow is timed, once: a settled payment
/// has a verification and a settlement on record, a refused one at most the verification,
/// and a payer who did not come through the screen neither.
pub proof fn an_x402_run_times_each_call(
    headers: Seq<(Seq<char>, Seq<u8>)>,
    endpoint: EndpointView,
    allow_testnet: bool,
    bucket: Option<Seq<char>>,
    world: X402World,
)
    ensures
        ({
            let first = x402::start(headers, endpoint, allow_testnet, bucket);
            let timed = x402_timed(first, world);
            let outcome = x402_answer(first, world).outcome;
            &&& timed == if x402_comes_through(first, world, x402_settling()) {
                seq![PaymentStep::Verify, PaymentStep::Settle]
            } else if x402_comes_through(first, world, x402_verifying()) {
                seq![PaymentStep::Verify]
            } else {
                Seq::empty()
            }
            &&& outcome == Outcome::Settled || outcome == Outcome::SettleFailed ==> timed == seq![
                PaymentStep::Verify,
                PaymentStep::Settle,
            ]
            &&& outcome == Outcome::UpstreamFailed ==> timed == seq![PaymentStep::Verify]
            &&& outcome == Outcome::ScreenedOut || outcome == Outcome::ScreenUnavailable
                ==> timed == Seq::<PaymentStep>::empty()
        }),
{
    reveal_with_fuel(x402_timed, 6);
    reveal_with_fuel(x402_answer, 6);
    reveal_with_fuel(x402_comes_through, 6);
    let first = x402::start(headers, endpoint, allow_testnet, bucket);
    assert(x402_timed(first, world) =~= if x402_comes_through(first, world, x402_settling()) {
        seq![PaymentStep::Verify, PaymentStep::Settle]
    } else if x402_comes_through(first, world, x402_verifying()) {
        seq![PaymentStep::Verify]
    } else {
        Seq::empty()
    });
}

/// The steps that are timed in a run of the MPP flow that starts at `stage`, in order.
pub open spec fn mpp_timed(
    chain_id: u64,
    stage: mpp_rail::Stage,
    world: MppWorld,
) -> Seq<PaymentStep>
    decreases mpp_distance(stage),
{
    if stage is Done {
        Seq::empty()
    } else {
        let later = mpp_timed(chain_id, mpp_next(chain_id, stage, world), world);
        match mpp_rail::timed_at(stage) {
            Some(step) => seq![step] + later,
            None => later,
        }
    }
}

/// The charge in a run of the MPP flow is timed, once, even where it fails; a signer who did
/// not come through the screen has none on record.
pub proof fn an_mpp_run_times_its_charge(
    headers: Seq<(Seq<char>, Seq<u8>)>,
    endpoint: EndpointView,
    chain_id: u64,
    bucket: Option<Seq<char>>,
    world: MppWorld,
)
    ensures
        ({
            let first = mpp_rail::start(headers, endpoint, chain_id, bucket);
            let timed = mpp_timed(chain_id, first, world);
            let outcome = mpp_answer(chain_id, first, world).outcome;
            &&& timed == if mpp_comes_through(chain_id, first, world, mpp_charging()) {
                seq![PaymentStep::Charge]
            } else {
                Seq::empty()
            }
            &&& outcome == Outcome::Settled || outcome == Outcome::Refused || outcome
                == Outcome::NetworkUnavailable ==> timed == seq![PaymentStep::Charge]
            &&& outcome == Outcome::ScreenedOut || outcome == Outcome::ScreenUnavailable || outcome
                == Outcome::Malformed || outcome == Outcome::Unsupported ==> timed == Seq::<
                PaymentStep,
            >::empty()
        }),
{
    reveal_with_fuel(mpp_timed, 5);
    reveal_with_fuel(mpp_answer, 5);
    reveal_with_fuel(mpp_comes_through, 5);
    let first = mpp_rail::start(headers, endpoint, chain_id, bucket);
    assert(mpp_timed(chain_id, first, world) =~= if mpp_comes_through(
        chain_id,
        first,
        world,
        mpp_charging(),
    ) {
        seq![PaymentStep::Charge]
    } else {
        Seq::empty()
    });
}

} // verus!
