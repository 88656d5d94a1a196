//! What recording guarantees: each event is counted once, under its own labels, nothing else
//! changes, and what was counted is exposed.

use vstd::prelude::*;
use vstd::utf8::*;

use crate::dispatch::Plan;
use crate::endpoints::Endpoint;
use crate::error::TransportError;
use crate::exposition::{count_line, counter_line, counted, full_name, holds, labels_text};
use crate::guarantees::catalog::{is_for_sale, lemma_sold};
use crate::guarantees::replies::{has_only, lemma_one_header};
use crate::guarantees::texts::{decimal_writes_the_number, writes};
use crate::http::Reply;
use crate::metrics::{
    bucket_bounds, bucket_from, duration_buckets, endpoint_label, expose, increased, measure,
    method_label, observed, ChallengeReason, Metrics, MetricsView, PaymentRail, PaymentStep,
};
use crate::mpp_rail::{CHAIN_QUERY_TIMEOUT_SECONDS, CHALLENGE_MINUTES};
use crate::payment::{Answer, Outcome};
use crate::recording::{record_answer, record_call, record_plan, record_search};
use crate::screener::{S3_TIMEOUT_SECONDS, SCREEN_TIMEOUT_SECONDS};
use crate::search::{Fetched, SEARCH_CONNECT_TIMEOUT_SECONDS, SEARCH_TIMEOUT_SECONDS};
use crate::text::decimal;

verus! {

// Labels.

/// Each rail, step, reason, and outcome has a label of its own.
pub proof fn each_label_tells_what_it_is(
    rail: PaymentRail,
    step: PaymentStep,
    reason: ChallengeReason,
    outcome: Outcome,
    rail_label: &'static str,
    step_label: &'static str,
    reason_label: &'static str,
    outcome_label: &'static str,
)
    requires
        call_ensures(PaymentRail::label, (&rail,), rail_label),
        call_ensures(PaymentStep::label, (&step,), step_label),
        call_ensures(ChallengeReason::label, (&reason,), reason_label),
        call_ensures(Outcome::label, (&outcome,), outcome_label),
    ensures
        is_rail_text(rail, rail_label@),
        is_step_text(step, step_label@),
        is_reason_text(reason, reason_label@),
        is_outcome_text(outcome, outcome_label@),
{
}

/// Whether a text is the label of a rail.
pub open spec fn is_rail_text(rail: PaymentRail, text: Seq<char>) -> bool {
    match rail {
        PaymentRail::X402 => text == "x402"@,
        PaymentRail::Mpp => text == "mpp"@,
    }
}

/// Whether a text is the label of a step.
pub open spec fn is_step_text(step: PaymentStep, text: Seq<char>) -> bool {
    match step {
        PaymentStep::Verify => text == "verify"@,
        PaymentStep::Settle => text == "settle"@,
        PaymentStep::Charge => text == "charge"@,
    }
}

/// Whether a text is the label of a reason.
pub open spec fn is_reason_text(reason: ChallengeReason, text: Seq<char>) -> bool {
    match reason {
        ChallengeReason::NoPayment => text == "no_payment"@,
        ChallengeReason::Collision => text == "collision"@,
        ChallengeReason::RailDisabled => text == "rail_disabled"@,
    }
}

/// Whether a text is the label of an outcome.
pub open spec fn is_outcome_text(outcome: Outcome, text: Seq<char>) -> bool {
    match outcome {
        Outcome::Settled => text == "settled"@,
        Outcome::Refused => text == "refused"@,
        Outcome::UpstreamFailed => text == "upstream_failed"@,
        Outcome::SettleFailed => text == "settle_failed"@,
        Outcome::ScreenedOut => text == "screened_out"@,
        Outcome::ScreenUnavailable => text == "screen_unavailable"@,
        Outcome::Malformed => text == "malformed"@,
        Outcome::Unsupported => text == "unsupported"@,
        Outcome::NetworkUnavailable => text == "network_unavailable"@,
    }
}

/// Whether a text is the label of a request path: the path where it is sold or the health
/// probe's, and a catch-all everywhere else.
pub open spec fn is_path_text(path: Seq<char>, text: Seq<char>) -> bool {
    if is_for_sale(path) || path == "/health"@ {
        text == path
    } else {
        text == "other"@
    }
}

/// Whether a text is the label of a request method.
pub open spec fn is_method_text(method: Seq<char>, text: Seq<char>) -> bool {
    if method == "GET"@ || method == "POST"@ || method == "HEAD"@ {
        text == method
    } else {
        text == "other"@
    }
}

proof fn lemma_path_label(path: Seq<char>)
    ensures
        is_path_text(path, crate::metrics::path_label(path)),
        is_method_text(path, crate::metrics::served_method(path)),
{
    lemma_sold(path);
}

/// A path and a method are labelled as themselves where the service serves them, and by one
/// catch-all where it does not, so no request mints a label.
pub proof fn a_request_mints_no_label(
    path: &str,
    method: &str,
    path_label: &'static str,
    method_text: &'static str,
)
    requires
        call_ensures(endpoint_label, (path,), path_label),
        call_ensures(method_label, (method,), method_text),
    ensures
        is_path_text(path@, path_label@),
        is_method_text(method@, method_text@),
{
    lemma_path_label(path@);
}

// Counting.

/// Whether counters are others with one of them increased, from zero where it was not there,
/// and no other touched. What passes 64 bits starts over.
pub open spec fn one_goes_up(
    before: Map<Seq<(Seq<char>, Seq<char>)>, u64>,
    after: Map<Seq<(Seq<char>, Seq<char>)>, u64>,
    labels: Seq<(Seq<char>, Seq<char>)>,
    by: u64,
) -> bool {
    &&& after.dom().contains(labels)
    &&& forall|other: Seq<(Seq<char>, Seq<char>)>|
        other != labels ==> (#[trigger] after.dom().contains(other) <==> before.dom().contains(
            other,
        ))
    &&& forall|other: Seq<(Seq<char>, Seq<char>)>|
        other != labels && before.dom().contains(other) ==> #[trigger] after[other]
            == before[other]
    &&& before.dom().contains(labels) ==> (after[labels] == before[labels] + by || after[labels]
        == before[labels] + by - 0x1_0000_0000_0000_0000)
    &&& !before.dom().contains(labels) ==> after[labels] == by
}

proof fn lemma_increased(
    before: Map<Seq<(Seq<char>, Seq<char>)>, u64>,
    labels: Seq<(Seq<char>, Seq<char>)>,
    by: u64,
)
    ensures
        one_goes_up(before, increased(before, labels, by), labels, by),
{
}

/// The bound of a bucket, in milliseconds.
pub open spec fn bound(i: int) -> int {
    if i == 0 {
        50
    } else if i == 1 {
        100
    } else if i == 2 {
        250
    } else if i == 3 {
        500
    } else if i == 4 {
        1000
    } else if i == 5 {
        2000
    } else if i == 6 {
        3000
    } else if i == 7 {
        5000
    } else if i == 8 {
        8000
    } else if i == 9 {
        15000
    } else {
        30000
    }
}

/// Whether a duration belongs in a bucket: it is within the bucket's bound and beyond all
/// those before. The last has no bound.
pub open spec fn belongs_in(nanos: u64, bucket: int) -> bool {
    &&& 0 <= bucket <= 11
    &&& bucket < 11 ==> nanos <= bound(bucket) * 1_000_000
    &&& forall|i: int| 0 <= i < bucket ==> nanos > #[trigger] bound(i) * 1_000_000
}

proof fn lemma_bucket_from(nanos: u64, from: int)
    requires
        0 <= from <= 11,
        forall|i: int| 0 <= i < from ==> nanos > #[trigger] bound(i) * 1_000_000,
    ensures
        belongs_in(nanos, bucket_from(nanos, from)),
    decreases 11 - from,
{
    if from < 11 {
        assert(bucket_bounds()[from] == bound(from));
        if nanos > bound(from) * 1_000_000 {
            lemma_bucket_from(nanos, from + 1);
        }
    }
}

/// Whether histograms are others with one duration more in one of them, in the bucket it
/// belongs in, and nothing else touched.
pub open spec fn one_is_timed(
    before: Map<Seq<(Seq<char>, Seq<char>)>, Seq<nat>>,
    after: Map<Seq<(Seq<char>, Seq<char>)>, Seq<nat>>,
    labels: Seq<(Seq<char>, Seq<char>)>,
    nanos: u64,
) -> bool {
    &&& after.dom().contains(labels)
    &&& forall|other: Seq<(Seq<char>, Seq<char>)>|
        other != labels ==> (#[trigger] after.dom().contains(other) <==> before.dom().contains(
            other,
        ))
    &&& forall|other: Seq<(Seq<char>, Seq<char>)>|
        other != labels && before.dom().contains(other) ==> #[trigger] after[other]
            == before[other]
    &&& exists|bucket: int| #[trigger]
        belongs_in(nanos, bucket) && forall|i: int|
            0 <= i < 12 && (before.dom().contains(labels) ==> before[labels].len() == 12)
                ==> #[trigger] after[labels][i] == (if before.dom().contains(labels) {
                before[labels][i]
            } else {
                0nat
            }) + if i == bucket {
                1nat
            } else {
                0nat
            }
}

proof fn lemma_observed(
    before: Map<Seq<(Seq<char>, Seq<char>)>, Seq<nat>>,
    labels: Seq<(Seq<char>, Seq<char>)>,
    nanos: u64,
)
    ensures
        one_is_timed(before, observed(before, labels, nanos), labels, nanos),
{
    lemma_bucket_from(nanos, 0);
    assert(bucket_bounds().len() == 11);
    assert(belongs_in(nanos, bucket_from(nanos, 0)));
}

/// The buckets are bounded as they are exposed.
pub proof fn the_buckets_have_their_bounds(bounds: Vec<u64>, i: int)
    requires
        call_ensures(duration_buckets, (), bounds),
        0 <= i < 11,
    ensures
        bounds@.len() == 11,
        bounds@[i] == bound(i),
{
}

/// Every deadline that the service keeps is the bound of a bucket, so a histogram tells how
/// close requests come to it: two seconds for a screen, five for the upstream connection, and
/// fifteen for a search. A shorter deadline stands inside a longer one.
pub proof fn every_deadline_is_a_bound(bounds: Vec<u64>)
    requires
        call_ensures(duration_buckets, (), bounds),
    ensures
        bounds@.contains((SCREEN_TIMEOUT_SECONDS * 1000) as u64),
        bounds@.contains((SEARCH_CONNECT_TIMEOUT_SECONDS * 1000) as u64),
        bounds@.contains((SEARCH_TIMEOUT_SECONDS * 1000) as u64),
        SCREEN_TIMEOUT_SECONDS == 2,
        SEARCH_CONNECT_TIMEOUT_SECONDS == 5,
        SEARCH_TIMEOUT_SECONDS == 15,
        SCREEN_TIMEOUT_SECONDS < S3_TIMEOUT_SECONDS,
        S3_TIMEOUT_SECONDS == 10,
        CHAIN_QUERY_TIMEOUT_SECONDS == 5,
        CHALLENGE_MINUTES == 5,
        forall|i: int, j: int| 0 <= i < j < bounds@.len() ==> bounds@[i] < bounds@[j],
{
    assert(bounds@[5] == 2000 && bounds@[7] == 5000 && bounds@[9] == 15000);
}

/// A request that was answered is counted once, under its path, method, and status, and timed
/// once; nothing else changes.
pub proof fn a_request_is_counted_once(
    metrics: &mut Metrics,
    path: &str,
    method: &str,
    status: u16,
    nanos: u64,
    path_text: Seq<char>,
    method_text: Seq<char>,
    status_text: Seq<char>,
)
    requires
        call_ensures(measure, (metrics, path, method, status, nanos), ()),
        is_path_text(path@, path_text),
        is_method_text(method@, method_text),
        writes(status_text, status as int),
    ensures
        one_goes_up(
            old(metrics)@.requests,
            final(metrics)@.requests,
            seq![("endpoint"@, path_text), ("method"@, method_text), ("status"@, status_text)],
            1,
        ),
        one_is_timed(
            old(metrics)@.request_duration,
            final(metrics)@.request_duration,
            seq![("endpoint"@, path_text), ("method"@, method_text)],
            nanos,
        ),
        final(metrics)@ == (MetricsView {
            requests: final(metrics)@.requests,
            request_duration: final(metrics)@.request_duration,
            ..old(metrics)@
        }),
{
    lemma_path_label(path@);
    lemma_path_label(method@);
    decimal_writes_the_number(status as nat);
    crate::guarantees::texts::a_number_is_written_in_one_way(
        status_text,
        decimal(status as nat),
        status as int,
    );
    lemma_increased(
        old(metrics)@.requests,
        seq![("endpoint"@, path_text), ("method"@, method_text), ("status"@, status_text)],
        1,
    );
    lemma_observed(
        old(metrics)@.request_duration,
        seq![("endpoint"@, path_text), ("method"@, method_text)],
        nanos,
    );
}

/// The same of a request whose labels are given.
pub proof fn a_labelled_request_is_counted_once(
    metrics: &mut Metrics,
    endpoint: &str,
    method: &str,
    status: u16,
    nanos: u64,
    status_text: Seq<char>,
)
    requires
        call_ensures(Metrics::record_request, (metrics, endpoint, method, status, nanos), ()),
        writes(status_text, status as int),
    ensures
        one_goes_up(
            old(metrics)@.requests,
            final(metrics)@.requests,
            seq![("endpoint"@, endpoint@), ("method"@, method@), ("status"@, status_text)],
            1,
        ),
        one_is_timed(
            old(metrics)@.request_duration,
            final(metrics)@.request_duration,
            seq![("endpoint"@, endpoint@), ("method"@, method@)],
            nanos,
        ),
        final(metrics)@ == (MetricsView {
            requests: final(metrics)@.requests,
            request_duration: final(metrics)@.request_duration,
            ..old(metrics)@
        }),
{
    decimal_writes_the_number(status as nat);
    crate::guarantees::texts::a_number_is_written_in_one_way(
        status_text,
        decimal(status as nat),
        status as int,
    );
    lemma_increased(
        old(metrics)@.requests,
        seq![("endpoint"@, endpoint@), ("method"@, method@), ("status"@, status_text)],
        1,
    );
    lemma_observed(
        old(metrics)@.request_duration,
        seq![("endpoint"@, endpoint@), ("method"@, method@)],
        nanos,
    );
}

/// Whether a text is the label of a search: the number of its status, or the kind of failure.
pub open spec fn is_search_text(
    fetched: Result<Fetched, TransportError>,
    text: Seq<char>,
) -> bool {
    match fetched {
        Ok(answer) => writes(text, answer.status as int),
        Err(err) => {
            &&& err.timeout ==> text == "timeout"@
            &&& err.connect && !err.timeout ==> text == "connect"@
            &&& err.decode && !err.connect && !err.timeout ==> text == "decode"@
            &&& !err.decode && !err.connect && !err.timeout ==> text == "transport"@
        },
    }
}

/// A search is counted once, under its path and what it gave, and timed once; nothing else
/// changes.
pub proof fn a_search_is_counted_once(
    metrics: &mut Metrics,
    path: &str,
    fetched: &Result<Fetched, TransportError>,
    nanos: u64,
    path_text: Seq<char>,
    status_text: Seq<char>,
)
    requires
        call_ensures(record_search, (metrics, path, fetched, nanos), ()),
        is_path_text(path@, path_text),
        is_search_text(*fetched, status_text),
    ensures
        one_goes_up(
            old(metrics)@.upstream_requests,
            final(metrics)@.upstream_requests,
            seq![("endpoint"@, path_text), ("status"@, status_text)],
            1,
        ),
        one_is_timed(
            old(metrics)@.upstream_duration,
            final(metrics)@.upstream_duration,
            seq![("endpoint"@, path_text)],
            nanos,
        ),
        final(metrics)@ == (MetricsView {
            upstream_requests: final(metrics)@.upstream_requests,
            upstream_duration: final(metrics)@.upstream_duration,
            ..old(metrics)@
        }),
{
    lemma_path_label(path@);
    if let Ok(answer) = *fetched {
        decimal_writes_the_number(answer.status as nat);
        crate::guarantees::texts::a_number_is_written_in_one_way(
            status_text,
            decimal(answer.status as nat),
            answer.status as int,
        );
    }
    lemma_increased(
        old(metrics)@.upstream_requests,
        seq![("endpoint"@, path_text), ("status"@, status_text)],
        1,
    );
    lemma_observed(old(metrics)@.upstream_duration, seq![("endpoint"@, path_text)], nanos);
}

/// The same of a search whose labels are given.
pub proof fn a_labelled_search_is_counted_once(
    metrics: &mut Metrics,
    endpoint: &str,
    status: &str,
    nanos: u64,
)
    requires
        call_ensures(Metrics::record_upstream, (metrics, endpoint, status, nanos), ()),
    ensures
        one_goes_up(
            old(metrics)@.upstream_requests,
            final(metrics)@.upstream_requests,
            seq![("endpoint"@, endpoint@), ("status"@, status@)],
            1,
        ),
        one_is_timed(
            old(metrics)@.upstream_duration,
            final(metrics)@.upstream_duration,
            seq![("endpoint"@, endpoint@)],
            nanos,
        ),
        final(metrics)@ == (MetricsView {
            upstream_requests: final(metrics)@.upstream_requests,
            upstream_duration: final(metrics)@.upstream_duration,
            ..old(metrics)@
        }),
{
    lemma_increased(
        old(metrics)@.upstream_requests,
        seq![("endpoint"@, endpoint@), ("status"@, status@)],
        1,
    );
    lemma_observed(old(metrics)@.upstream_duration, seq![("endpoint"@, endpoint@)], nanos);
}

/// Whether one challenge more is on record, for an endpoint and a reason, and nothing else
/// changed.
pub open spec fn one_is_challenged(
    before: MetricsView,
    after: MetricsView,
    endpoint: Seq<char>,
    reason: ChallengeReason,
) -> bool {
    &&& after == (MetricsView { challenges: after.challenges, ..before })
    &&& forall|text: Seq<char>| #[trigger]
        is_reason_text(reason, text) ==> one_goes_up(
            before.challenges,
            after.challenges,
            seq![("endpoint"@, endpoint), ("reason"@, text)],
            1,
        )
}

proof fn lemma_challenged(before: MetricsView, endpoint: Seq<char>, reason: ChallengeReason)
    ensures
        one_is_challenged(
            before,
            crate::metrics::with_challenge(before, endpoint, reason),
            endpoint,
            reason,
        ),
{
    assert forall|text: Seq<char>| #[trigger] is_reason_text(reason, text) implies one_goes_up(
        before.challenges,
        crate::metrics::with_challenge(before, endpoint, reason).challenges,
        seq![("endpoint"@, endpoint), ("reason"@, text)],
        1,
    ) by {
        lemma_increased(
            before.challenges,
            seq![("endpoint"@, endpoint), ("reason"@, text)],
            1,
        );
    }
}

/// A request that was challenged is counted once, under its endpoint and the reason; nothing
/// else changes.
pub proof fn a_challenge_is_counted_once(
    metrics: &mut Metrics,
    endpoint: &str,
    reason: ChallengeReason,
)
    requires
        call_ensures(Metrics::record_challenge, (metrics, endpoint, reason), ()),
    ensures
        one_is_challenged(old(metrics)@, final(metrics)@, endpoint@, reason),
{
    lemma_challenged(old(metrics)@, endpoint@, reason);
}

/// A plan that challenges is counted once with its reason, a collision as one, and any other
/// plan is not counted yet.
pub proof fn a_plan_is_counted_for_what_it_is(metrics: &mut Metrics, plan: &Plan)
    requires
        call_ensures(record_plan, (metrics, plan), ()),
    ensures
        match *plan {
            Plan::Challenge(endpoint, reason) => one_is_challenged(
                old(metrics)@,
                final(metrics)@,
                endpoint.path@,
                reason,
            ),
            Plan::Collision(endpoint) => one_is_challenged(
                old(metrics)@,
                final(metrics)@,
                endpoint.path@,
                ChallengeReason::Collision,
            ),
            _ => final(metrics)@ == old(metrics)@,
        },
{
    match *plan {
        Plan::Challenge(endpoint, reason) => {
            lemma_challenged(old(metrics)@, endpoint.path@, reason);
        },
        Plan::Collision(endpoint) => {
            lemma_challenged(old(metrics)@, endpoint.path@, ChallengeReason::Collision);
        },
        _ => {},
    }
}

/// Whether one payment more is on record, on a rail, for an endpoint, with its outcome and
/// what it was charged, and nothing else changed.
pub open spec fn one_has_paid(
    before: MetricsView,
    after: MetricsView,
    rail: PaymentRail,
    endpoint: Seq<char>,
    outcome: Outcome,
    charged: Option<u64>,
) -> bool {
    &&& after == (MetricsView { payments: after.payments, charged: after.charged, ..before })
    &&& forall|rail_text: Seq<char>, outcome_text: Seq<char>|
        #![trigger is_rail_text(rail, rail_text), is_outcome_text(outcome, outcome_text)]
        is_rail_text(rail, rail_text) && is_outcome_text(outcome, outcome_text) ==> one_goes_up(
            before.payments,
            after.payments,
            seq![("rail"@, rail_text), ("endpoint"@, endpoint), ("outcome"@, outcome_text)],
            1,
        )
    &&& charged is None ==> after.charged == before.charged
    &&& charged matches Some(units) ==> forall|rail_text: Seq<char>| #[trigger]
        is_rail_text(rail, rail_text) ==> one_goes_up(
            before.charged,
            after.charged,
            seq![("rail"@, rail_text), ("endpoint"@, endpoint)],
            units,
        )
}

proof fn lemma_paid(
    before: MetricsView,
    rail: PaymentRail,
    endpoint: Seq<char>,
    outcome: Outcome,
    charged: Option<u64>,
)
    ensures
        one_has_paid(
            before,
            crate::metrics::with_payment(before, rail, endpoint, outcome, charged),
            rail,
            endpoint,
            outcome,
            charged,
        ),
{
    let after = crate::metrics::with_payment(before, rail, endpoint, outcome, charged);
    assert forall|rail_text: Seq<char>, outcome_text: Seq<char>|
        #![trigger is_rail_text(rail, rail_text), is_outcome_text(outcome, outcome_text)]
        is_rail_text(rail, rail_text) && is_outcome_text(
            outcome,
            outcome_text,
        ) implies one_goes_up(
        before.payments,
        after.payments,
        seq![("rail"@, rail_text), ("endpoint"@, endpoint), ("outcome"@, outcome_text)],
        1,
    ) by {
        lemma_increased(
            before.payments,
            seq![("rail"@, rail_text), ("endpoint"@, endpoint), ("outcome"@, outcome_text)],
            1,
        );
    }
    if let Some(units) = charged {
        assert forall|rail_text: Seq<char>| #[trigger] is_rail_text(
            rail,
            rail_text,
        ) implies one_goes_up(
            before.charged,
            after.charged,
            seq![("rail"@, rail_text), ("endpoint"@, endpoint)],
            units,
        ) by {
            lemma_increased(
                before.charged,
                seq![("rail"@, rail_text), ("endpoint"@, endpoint)],
                units,
            );
        }
    }
}

/// A payment is counted once, under its rail, endpoint, and outcome, and adds to what was
/// charged exactly what it was charged; nothing else changes.
pub proof fn a_payment_is_counted_once(
    metrics: &mut Metrics,
    rail: PaymentRail,
    endpoint: &str,
    outcome: Outcome,
    charged: Option<u64>,
)
    requires
        call_ensures(Metrics::record_payment, (metrics, rail, endpoint, outcome, charged), ()),
    ensures
        one_has_paid(old(metrics)@, final(metrics)@, rail, endpoint@, outcome, charged),
{
    lemma_paid(old(metrics)@, rail, endpoint@, outcome, charged);
}

/// The same of the answer that a payment ended in.
pub proof fn an_answer_is_counted_once(
    metrics: &mut Metrics,
    rail: PaymentRail,
    endpoint: &Endpoint,
    answer: &Answer,
)
    requires
        call_ensures(record_answer, (metrics, rail, endpoint, answer), ()),
    ensures
        one_has_paid(
            old(metrics)@,
            final(metrics)@,
            rail,
            endpoint.path@,
            answer.outcome,
            answer.charged,
        ),
{
    lemma_paid(old(metrics)@, rail, endpoint.path@, answer.outcome, answer.charged);
}

/// Whether one step more is timed, on a rail, and nothing else changed.
pub open spec fn one_step_is_timed(
    before: MetricsView,
    after: MetricsView,
    rail: PaymentRail,
    step: PaymentStep,
    nanos: u64,
) -> bool {
    &&& after == (MetricsView { payment_steps: after.payment_steps, ..before })
    &&& forall|rail_text: Seq<char>, step_text: Seq<char>|
        #![trigger is_rail_text(rail, rail_text), is_step_text(step, step_text)]
        is_rail_text(rail, rail_text) && is_step_text(step, step_text) ==> one_is_timed(
            before.payment_steps,
            after.payment_steps,
            seq![("rail"@, rail_text), ("step"@, step_text)],
            nanos,
        )
}

proof fn lemma_timed(before: MetricsView, rail: PaymentRail, step: PaymentStep, nanos: u64)
    ensures
        one_step_is_timed(
            before,
            crate::metrics::with_step(before, rail, step, nanos),
            rail,
            step,
            nanos,
        ),
{
    let after = crate::metrics::with_step(before, rail, step, nanos);
    assert forall|rail_text: Seq<char>, step_text: Seq<char>|
        #![trigger is_rail_text(rail, rail_text), is_step_text(step, step_text)]
        is_rail_text(rail, rail_text) && is_step_text(step, step_text) implies one_is_timed(
        before.payment_steps,
        after.payment_steps,
        seq![("rail"@, rail_text), ("step"@, step_text)],
        nanos,
    ) by {
        lemma_observed(
            before.payment_steps,
            seq![("rail"@, rail_text), ("step"@, step_text)],
            nanos,
        );
    }
}

/// A step of a payment is timed once, under its rail and what it was; nothing else changes.
pub proof fn a_step_is_timed_once(
    metrics: &mut Metrics,
    rail: PaymentRail,
    step: PaymentStep,
    nanos: u64,
)
    requires
        call_ensures(Metrics::record_step, (metrics, rail, step, nanos), ()),
    ensures
        one_step_is_timed(old(metrics)@, final(metrics)@, rail, step, nanos),
{
    lemma_timed(old(metrics)@, rail, step, nanos);
}

/// A call that is to be timed is timed once, and any other is not.
pub proof fn a_call_is_timed_once(
    metrics: &mut Metrics,
    rail: PaymentRail,
    step: Option<PaymentStep>,
    nanos: u64,
)
    requires
        call_ensures(record_call, (metrics, rail, step, nanos), ()),
    ensures
        match step {
            Some(step) => one_step_is_timed(old(metrics)@, final(metrics)@, rail, step, nanos),
            None => final(metrics)@ == old(metrics)@,
        },
{
    if let Some(step) = step {
        lemma_timed(old(metrics)@, rail, step, nanos);
    }
}

// Exposing.

/// Fresh metrics hold nothing.
pub proof fn fresh_metrics_hold_nothing(metrics: Metrics, labels: Seq<(Seq<char>, Seq<char>)>)
    requires
        call_ensures(Metrics::new, (), metrics),
    ensures
        !metrics@.requests.dom().contains(labels),
        !metrics@.request_duration.dom().contains(labels),
        !metrics@.upstream_requests.dom().contains(labels),
        !metrics@.upstream_duration.dom().contains(labels),
        !metrics@.challenges.dom().contains(labels),
        !metrics@.payments.dom().contains(labels),
        !metrics@.charged.dom().contains(labels),
        !metrics@.payment_steps.dom().contains(labels),
{
}

/// Whether a text has a line for a counter: its name and labels, and the number it stands at.
pub open spec fn has_line(
    text: Seq<char>,
    name: Seq<char>,
    labels: Seq<(Seq<char>, Seq<char>)>,
    count: int,
) -> bool {
    exists|digits: Seq<char>| #[trigger]
        writes(digits, count) && holds(
            text,
            name + "{"@ + labels_text(labels) + "} "@ + digits + "\n"@,
        )
}

/// Whether every counter has its line in a text.
pub open spec fn has_lines(
    text: Seq<char>,
    name: Seq<char>,
    counts: Map<Seq<(Seq<char>, Seq<char>)>, u64>,
) -> bool {
    forall|labels: Seq<(Seq<char>, Seq<char>)>| #[trigger]
        counts.dom().contains(labels) ==> has_line(text, name, labels, counts[labels] as int)
}

/// Whether every histogram has the line of its count in a text.
pub open spec fn has_count_lines(
    text: Seq<char>,
    name: Seq<char>,
    counts: Map<Seq<(Seq<char>, Seq<char>)>, Seq<nat>>,
) -> bool {
    forall|labels: Seq<(Seq<char>, Seq<char>)>| #[trigger]
        counts.dom().contains(labels) ==> has_line(
            text,
            name,
            labels,
            counted(counts[labels], counts[labels].len() as int) as int,
        )
}

proof fn lemma_lines(
    text: Seq<char>,
    i: int,
    name: Seq<char>,
    counts: Map<Seq<(Seq<char>, Seq<char>)>, u64>,
)
    requires
        crate::metrics::shows_counts(text, i, counts),
        name == "bx402"@ + "_"@ + crate::metrics::metric_names()[i].0 + "_total"@,
    ensures
        has_lines(text, name, counts),
{
    assert forall|labels: Seq<(Seq<char>, Seq<char>)>| #[trigger]
        counts.dom().contains(labels) implies has_line(text, name, labels, counts[labels] as int) by {
        let digits = decimal(counts[labels] as nat);
        decimal_writes_the_number(counts[labels] as nat);
        assert(counter_line(
            full_name("bx402"@, crate::metrics::metric_names()[i].0),
            labels,
            counts[labels],
        ) == name + "{"@ + labels_text(labels) + "} "@ + digits + "\n"@);
        assert(writes(digits, counts[labels] as int));
    }
}

proof fn lemma_count_lines(
    text: Seq<char>,
    i: int,
    name: Seq<char>,
    counts: Map<Seq<(Seq<char>, Seq<char>)>, Seq<nat>>,
)
    requires
        crate::metrics::shows_times(text, i, counts),
        name == "bx402"@ + "_"@ + crate::metrics::metric_names()[i].0 + "_count"@,
    ensures
        has_count_lines(text, name, counts),
{
    assert forall|labels: Seq<(Seq<char>, Seq<char>)>| #[trigger]
        counts.dom().contains(labels) implies has_line(
        text,
        name,
        labels,
        counted(counts[labels], counts[labels].len() as int) as int,
    ) by {
        let n = counted(counts[labels], counts[labels].len() as int);
        let digits = decimal(n);
        decimal_writes_the_number(n);
        assert(count_line(
            full_name("bx402"@, crate::metrics::metric_names()[i].0),
            labels,
            counts[labels],
        ) == name + "{"@ + labels_text(labels) + "} "@ + digits + "\n"@);
        assert(writes(digits, n as int));
    }
}

/// Rendering never fails, and shows everything that was recorded, each under its own name
/// with the number it stands at; and the text ends as OpenMetrics requires.
pub proof fn everything_recorded_is_exposed(metrics: &Metrics, exposition: Option<String>)
    requires
        metrics.wf(),
        call_ensures(Metrics::render, (metrics,), exposition),
    ensures
        exposition is Some,
        has_lines(exposition->0@, "bx402_http_requests_total"@, metrics@.requests),
        has_lines(exposition->0@, "bx402_upstream_requests_total"@, metrics@.upstream_requests),
        has_lines(exposition->0@, "bx402_challenges_total"@, metrics@.challenges),
        has_lines(exposition->0@, "bx402_payments_total"@, metrics@.payments),
        has_lines(exposition->0@, "bx402_charged_base_units_total"@, metrics@.charged),
        has_count_lines(
            exposition->0@,
            "bx402_http_request_duration_seconds_count"@,
            metrics@.request_duration,
        ),
        has_count_lines(
            exposition->0@,
            "bx402_upstream_duration_seconds_count"@,
            metrics@.upstream_duration,
        ),
        has_count_lines(
            exposition->0@,
            "bx402_payment_step_duration_seconds_count"@,
            metrics@.payment_steps,
        ),
        exposition->0@.len() >= 6,
        exposition->0@.subrange(exposition->0@.len() - 6, exposition->0@.len() as int) == seq![
            '#',
            ' ',
            'E',
            'O',
            'F',
            '\n',
        ],
{
    let text = exposition->0@;
    let recorded = metrics@;
    lemma_names();
    lemma_lines(text, 1, "bx402_http_requests_total"@, recorded.requests);
    lemma_count_lines(
        text,
        2,
        "bx402_http_request_duration_seconds_count"@,
        recorded.request_duration,
    );
    lemma_lines(text, 3, "bx402_upstream_requests_total"@, recorded.upstream_requests);
    lemma_count_lines(
        text,
        4,
        "bx402_upstream_duration_seconds_count"@,
        recorded.upstream_duration,
    );
    lemma_lines(text, 5, "bx402_challenges_total"@, recorded.challenges);
    lemma_lines(text, 6, "bx402_payments_total"@, recorded.payments);
    lemma_lines(text, 7, "bx402_charged_base_units_total"@, recorded.charged);
    lemma_count_lines(
        text,
        8,
        "bx402_payment_step_duration_seconds_count"@,
        recorded.payment_steps,
    );
    reveal_strlit("# EOF\n");
    let blocks = choose|blocks: Seq<Seq<char>>| #[trigger]
        crate::metrics::tell(blocks, recorded) && text == crate::exposition::concatenated(blocks)
            + "# EOF\n"@;
    assert(text.subrange(text.len() - 6, text.len() as int) =~= seq!['#', ' ', 'E', 'O', 'F', '\n']);
}

proof fn lemma_names()
    ensures
        ({
            let names = crate::metrics::metric_names();
            let front = "bx402"@ + "_"@;
            &&& "bx402_http_requests_total"@ == front + names[1].0 + "_total"@
            &&& "bx402_http_request_duration_seconds_count"@ == front + names[2].0 + "_count"@
            &&& "bx402_upstream_requests_total"@ == front + names[3].0 + "_total"@
            &&& "bx402_upstream_duration_seconds_count"@ == front + names[4].0 + "_count"@
            &&& "bx402_challenges_total"@ == front + names[5].0 + "_total"@
            &&& "bx402_payments_total"@ == front + names[6].0 + "_total"@
            &&& "bx402_charged_base_units_total"@ == front + names[7].0 + "_total"@
            &&& "bx402_payment_step_duration_seconds_count"@ == front + names[8].0 + "_count"@
        }),
{
    reveal_strlit("bx402");
    reveal_strlit("_");
    reveal_strlit("_total");
    reveal_strlit("_count");
    reveal_strlit("http_requests");
    reveal_strlit("http_request_duration_seconds");
    reveal_strlit("upstream_requests");
    reveal_strlit("upstream_duration_seconds");
    reveal_strlit("challenges");
    reveal_strlit("payments");
    reveal_strlit("charged_base_units");
    reveal_strlit("payment_step_duration_seconds");
    reveal_strlit("bx402_http_requests_total");
    reveal_strlit("bx402_http_request_duration_seconds_count");
    reveal_strlit("bx402_upstream_requests_total");
    reveal_strlit("bx402_upstream_duration_seconds_count");
    reveal_strlit("bx402_challenges_total");
    reveal_strlit("bx402_payments_total");
    reveal_strlit("bx402_charged_base_units_total");
    reveal_strlit("bx402_payment_step_duration_seconds_count");
    let names = crate::metrics::metric_names();
    let front = "bx402"@ + "_"@;
    assert("bx402_http_requests_total"@ =~= front + names[1].0 + "_total"@);
    assert("bx402_http_request_duration_seconds_count"@ =~= front + names[2].0 + "_count"@);
    assert("bx402_upstream_requests_total"@ =~= front + names[3].0 + "_total"@);
    assert("bx402_upstream_duration_seconds_count"@ =~= front + names[4].0 + "_count"@);
    assert("bx402_challenges_total"@ =~= front + names[5].0 + "_total"@);
    assert("bx402_payments_total"@ =~= front + names[6].0 + "_total"@);
    assert("bx402_charged_base_units_total"@ =~= front + names[7].0 + "_total"@);
    assert("bx402_payment_step_duration_seconds_count"@ =~= front + names[8].0 + "_count"@);
}

/// A scrape is answered with the exposition byte for byte, and with an error where there is
/// none.
pub proof fn a_scrape_gets_the_exposition(exposition: Option<String>, reply: Reply)
    requires
        call_ensures(expose, (exposition,), reply),
    ensures
        match exposition {
            Some(text) => {
                &&& reply.status == 200
                &&& reply.body@ == encode_utf8(text@)
                &&& has_only(
                    reply,
                    "content-type"@,
                    encode_utf8(
                        "application/openmetrics-text; version=1.0.0; charset=utf-8"@,
                    ),
                )
            },
            None => reply.status == 500 && reply.headers.entries@.len() == 0 && reply.body@.len()
                == 0,
        },
{
    match exposition {
        Some(_) => {
            lemma_one_header(
                reply,
                "content-type"@,
                encode_utf8("application/openmetrics-text; version=1.0.0; charset=utf-8"@),
            );
        },
        None => {
            assert(reply.headers@.len() == 0);
        },
    }
}

} // verus!
