//! Prometheus metrics: the registry, what is recorded in it, and the labels it is recorded
//! under.
//!
//! Metrics are served from a listener of their own rather than from the router that takes
//! public traffic. The page names every paid endpoint, how often payments are refused, and
//! how much has been charged, so keeping it off the public port is a property of the
//! process rather than of a proxy rule somewhere upstream.

use prometheus_client::encoding::text::encode;
use prometheus_client::metrics::counter::Counter;
use prometheus_client::metrics::family::Family;
use prometheus_client::metrics::histogram::Histogram;
use prometheus_client::metrics::info::Info;
use prometheus_client::registry::Registry;
use std::time::Duration;
use vstd::prelude::*;
use vstd::string::*;
use vstd::utf8::*;

use crate::endpoints::{catalog, find, sold, sold_is_what_the_catalog_lists};
use crate::exposition::{
    bound_texts, bucket_line, concatenated, count_line, counter_line, full_name, holds, info_text,
    is_counters_block, is_durations_block, lemma_concatenated_holds, lemma_counter_is_shown,
    lemma_histogram_is_shown, lemma_holds_between, lemma_holds_within,
};
use crate::http::{bare, bytes_of, Headers, Reply, ReplyView};
use crate::payment::{outcome_label, Outcome};
use crate::text::{decimal, decimal_text, same_text};
use crate::{HEALTH_PATH, VERSION};

verus! {

/// Address the metrics listener binds. Fixed rather than configurable, like the main bind,
/// and above 1024 so the unprivileged container user can bind it.
pub const BIND_ADDR: &'static str = "0.0.0.0:8090";

/// Content type of the exposition the encoder writes.
pub const EXPOSITION: &'static str = "application/openmetrics-text; version=1.0.0; charset=utf-8";

/// Catch-all label value, used wherever the caller supplies something outside the set we
/// serve, so a request cannot mint a series of its own.
pub const OTHER: &'static str = "other";

// Counters.

/// The values of a list of labels.
pub open spec fn labels_view(labels: Seq<(String, String)>) -> Seq<(Seq<char>, Seq<char>)> {
    Seq::new(labels.len(), |i: int| (labels[i].0@, labels[i].1@))
}

/// Counters of the `prometheus-client` crate, one for each list of labels.
#[verifier::external_body]
pub struct Counters {
    family: Family<Vec<(String, String)>, Counter>,
}

/// What each counter stands at.
pub uninterp spec fn counts(counters: Counters) -> Map<Seq<(Seq<char>, Seq<char>)>, u64>;

/// Which counters these are, among all that were made.
pub uninterp spec fn counters_id(counters: Counters) -> int;

/// No counter yet.
pub open spec fn no_counts() -> Map<Seq<(Seq<char>, Seq<char>)>, u64> {
    Map::empty()
}

/// What the counter with these labels stands at; one that was never counted stands at zero.
pub open spec fn count(
    counts: Map<Seq<(Seq<char>, Seq<char>)>, u64>,
    labels: Seq<(Seq<char>, Seq<char>)>,
) -> u64 {
    if counts.dom().contains(labels) {
        counts[labels]
    } else {
        0
    }
}

/// The counters after one was increased. A counter that passes what 64 bits hold starts
/// over from zero.
pub open spec fn increased(
    counts: Map<Seq<(Seq<char>, Seq<char>)>, u64>,
    labels: Seq<(Seq<char>, Seq<char>)>,
    by: u64,
) -> Map<Seq<(Seq<char>, Seq<char>)>, u64> {
    counts.insert(labels, ((count(counts, labels) + by) % 0x1_0000_0000_0000_0000) as u64)
}

/// `Family::default` of `prometheus-client`: no counter yet.
#[verifier::external_body]
fn new_counters() -> (counters: Counters)
    ensures
        counts(counters) == no_counts(),
{
    Counters { family: Family::default() }
}

/// `Family::get_or_create` and `Counter::inc_by` of `prometheus-client`: the counter with
/// these labels goes up, from zero where it was not there, and no other changes. They stay
/// the counters they were.
#[verifier::external_body]
fn increase(counters: &mut Counters, labels: Vec<(String, String)>, by: u64)
    ensures
        counts(*final(counters)) == increased(counts(*old(counters)), labels_view(labels@), by),
        counters_id(*final(counters)) == counters_id(*old(counters)),
{
    counters.family.get_or_create(&labels).inc_by(by);
}

// Durations.

/// Buckets for every duration we record, in milliseconds.
///
/// The boundaries straddle the deadlines this service enforces, so a histogram answers
/// directly how close requests are running to them: two seconds for a screen, five for the
/// upstream connect, fifteen for a whole upstream search. The steps between one and five
/// seconds are where paid requests actually land, because settling on chain dominates the
/// time.
pub open spec fn bucket_bounds() -> Seq<u64> {
    seq![50, 100, 250, 500, 1000, 2000, 3000, 5000, 8000, 15000, 30000]
}

/// The first bucket, from `from` on, that a duration of this many nanoseconds is counted
/// in. The last has no bound.
pub open spec fn bucket_from(nanos: u64, from: int) -> int
    decreases bucket_bounds().len() - from,
{
    if from < 0 || from >= bucket_bounds().len() {
        bucket_bounds().len() as int
    } else if nanos <= bucket_bounds()[from] * 1_000_000 {
        from
    } else {
        bucket_from(nanos, from + 1)
    }
}

/// Histograms of the `prometheus-client` crate over the buckets above, one for each list of
/// labels.
#[verifier::external_body]
pub struct Durations {
    family: Family<Vec<(String, String)>, Histogram, fn() -> Histogram>,
}

/// How many durations each bucket of each histogram counts.
pub uninterp spec fn bucket_counts(durations: Durations) -> Map<
    Seq<(Seq<char>, Seq<char>)>,
    Seq<nat>,
>;

/// Which histograms these are, among all that were made.
pub uninterp spec fn durations_id(durations: Durations) -> int;

/// No histogram yet.
pub open spec fn no_buckets() -> Map<Seq<(Seq<char>, Seq<char>)>, Seq<nat>> {
    Map::empty()
}

/// What the buckets of the histogram with these labels count.
pub open spec fn buckets(
    counts: Map<Seq<(Seq<char>, Seq<char>)>, Seq<nat>>,
    labels: Seq<(Seq<char>, Seq<char>)>,
) -> Seq<nat> {
    if counts.dom().contains(labels) {
        counts[labels]
    } else {
        Seq::new(bucket_bounds().len() + 1, |i: int| 0nat)
    }
}

/// The histograms after one duration more.
pub open spec fn observed(
    counts: Map<Seq<(Seq<char>, Seq<char>)>, Seq<nat>>,
    labels: Seq<(Seq<char>, Seq<char>)>,
    nanos: u64,
) -> Map<Seq<(Seq<char>, Seq<char>)>, Seq<nat>> {
    let before = buckets(counts, labels);
    let bucket = bucket_from(nanos, 0);
    counts.insert(labels, before.update(bucket, before[bucket] + 1))
}

/// Buckets for every duration we record, in milliseconds.
pub fn duration_buckets() -> (bounds: Vec<u64>)
    ensures
        bounds@ == bucket_bounds(),
{
    let bounds: Vec<u64> = vec![50, 100, 250, 500, 1000, 2000, 3000, 5000, 8000, 15000, 30000];
    assert(bounds@ == bucket_bounds());
    bounds
}

/// A histogram of the `prometheus-client` crate.
#[verifier::external_type_specification]
#[verifier::external_body]
pub struct ExHistogram(Histogram);

/// How many durations each bucket of a histogram counts. The last bucket has no bound.
pub uninterp spec fn histogram_counts(histogram: Histogram) -> Seq<nat>;

/// The bounds of a histogram's buckets but the last, in milliseconds.
pub uninterp spec fn histogram_bounds(histogram: Histogram) -> Seq<u64>;

/// `Histogram::new` of `prometheus-client`, the bounds turned into seconds: a histogram
/// over these buckets and one more without a bound, none of which counts anything yet.
#[verifier::external_body]
fn new_histogram(bounds: Vec<u64>) -> (histogram: Histogram)
    ensures
        histogram_bounds(histogram) == bounds@,
        histogram_counts(histogram) == Seq::new(bounds@.len() + 1, |i: int| 0nat),
{
    let bounds = bounds.into_iter().map(Duration::from_millis);
    Histogram::new(bounds.map(|bound| bound.as_secs_f64()))
}

/// A histogram over [`duration_buckets`], built per list of labels.
fn duration_histogram() -> (histogram: Histogram)
    ensures
        histogram_bounds(histogram) == bucket_bounds(),
        histogram_counts(histogram) == Seq::new(bucket_bounds().len() + 1, |i: int| 0nat),
{
    new_histogram(duration_buckets())
}

/// `Family::new_with_constructor` of `prometheus-client` with [`duration_histogram`]: no
/// histogram yet.
#[verifier::external_body]
fn new_durations() -> (durations: Durations)
    ensures
        bucket_counts(durations) == no_buckets(),
{
    Durations { family: Family::new_with_constructor(duration_histogram as fn() -> Histogram) }
}

/// `Family::get_or_create` and `Histogram::observe` of `prometheus-client`: the duration is
/// counted in the first bucket of the histogram with these labels that it fits, and in no
/// other. They stay the histograms they were. The sum that a histogram keeps besides is left
/// unsaid: it is a float.
#[verifier::external_body]
fn observe(durations: &mut Durations, labels: Vec<(String, String)>, nanos: u64)
    ensures
        bucket_counts(*final(durations)) == observed(
            bucket_counts(*old(durations)),
            labels_view(labels@),
            nanos,
        ),
        durations_id(*final(durations)) == durations_id(*old(durations)),
{
    durations.family.get_or_create(&labels).observe(Duration::from_nanos(nanos).as_secs_f64());
}

// The registry.

/// A registry of the `prometheus-client` crate.
#[verifier::external_type_specification]
#[verifier::external_body]
pub struct ExRegistry(Registry);

/// What a registry holds under one name.
#[verifier::ext_equal]
pub enum MetricKind {
    /// An `Info` metric with these labels.
    Info(Seq<(Seq<char>, Seq<char>)>),
    /// These counters.
    Counters(int),
    /// These histograms.
    Durations(int),
    /// Anything else, a collector or another registry among them.
    Other,
}

/// What a registry holds, in the order in which it was registered: name, help text, and kind.
pub uninterp spec fn registered(registry: Registry) -> Seq<(Seq<char>, Seq<char>, MetricKind)>;

/// What stands before every name in a registry. `None` where nothing does, or where the
/// registry has labels that go with every metric.
pub uninterp spec fn registry_prefix(registry: Registry) -> Option<Seq<char>>;

/// Nothing registered yet.
pub open spec fn nothing_registered() -> Seq<(Seq<char>, Seq<char>, MetricKind)> {
    Seq::empty()
}

/// `Registry::with_prefix` of `prometheus-client`: an empty registry.
#[verifier::external_body]
fn new_registry(prefix: &str) -> (registry: Registry)
    ensures
        registered(registry) == nothing_registered(),
        registry_prefix(registry) == Some(prefix@),
{
    Registry::with_prefix(prefix)
}

/// `Registry::register` of `prometheus-client` for an `Info` metric: the metric is added
/// behind the others.
#[verifier::external_body]
fn register_info(registry: &mut Registry, name: &str, help: &str, labels: Vec<(String, String)>)
    ensures
        registered(*final(registry)) == registered(*old(registry)).push(
            (name@, help@, MetricKind::Info(labels_view(labels@))),
        ),
        registry_prefix(*final(registry)) == registry_prefix(*old(registry)),
{
    registry.register(name, help, Info::new(labels));
}

/// `Registry::register` of `prometheus-client` for counters: the metric is added behind the
/// others. They are the same counters: `Family`'s clones share them.
#[verifier::external_body]
fn register_counters(registry: &mut Registry, name: &str, help: &str, counters: &Counters)
    ensures
        registered(*final(registry)) == registered(*old(registry)).push(
            (name@, help@, MetricKind::Counters(counters_id(*counters))),
        ),
        registry_prefix(*final(registry)) == registry_prefix(*old(registry)),
{
    registry.register(name, help, counters.family.clone());
}

/// `Registry::register` of `prometheus-client` for histograms: the metric is added behind
/// the others. They are the same histograms: `Family`'s clones share them.
#[verifier::external_body]
fn register_durations(registry: &mut Registry, name: &str, help: &str, durations: &Durations)
    ensures
        registered(*final(registry)) == registered(*old(registry)).push(
            (name@, help@, MetricKind::Durations(durations_id(*durations))),
        ),
        registry_prefix(*final(registry)) == registry_prefix(*old(registry)),
{
    registry.register(name, help, durations.family.clone());
}

/// Whether a registry holds `Info` metrics, counters, and histograms, and nothing else.
pub open spec fn is_plain(entries: Seq<(Seq<char>, Seq<char>, MetricKind)>) -> bool {
    forall|i: int| 0 <= i < entries.len() ==> !((#[trigger] entries[i]).2 is Other)
}

/// Whether `block` is what an exposition says of one entry of a registry. Of counters and
/// histograms it says what those among the given ones hold.
pub open spec fn is_block(
    block: Seq<char>,
    prefix: Seq<char>,
    entry: (Seq<char>, Seq<char>, MetricKind),
    counters: Seq<&Counters>,
    durations: Seq<&Durations>,
) -> bool {
    match entry.2 {
        MetricKind::Info(labels) => block == info_text(prefix, entry.0, entry.1, labels),
        MetricKind::Counters(id) => forall|k: int|
            0 <= k < counters.len() && counters_id(*#[trigger] counters[k]) == id
                ==> is_counters_block(block, prefix, entry.0, entry.1, counts(*counters[k])),
        MetricKind::Durations(id) => forall|k: int|
            0 <= k < durations.len() && durations_id(*#[trigger] durations[k]) == id
                ==> is_durations_block(
                block,
                prefix,
                entry.0,
                entry.1,
                bucket_counts(*durations[k]),
            ),
        MetricKind::Other => true,
    }
}

/// Whether `blocks` are what an exposition says of each entry of a registry.
pub open spec fn are_blocks(
    blocks: Seq<Seq<char>>,
    prefix: Seq<char>,
    entries: Seq<(Seq<char>, Seq<char>, MetricKind)>,
    counters: Seq<&Counters>,
    durations: Seq<&Durations>,
) -> bool {
    &&& blocks.len() == entries.len()
    &&& forall|i: int|
        0 <= i < entries.len() ==> is_block(
            blocks[i],
            prefix,
            #[trigger] entries[i],
            counters,
            durations,
        )
}

/// Whether `text` is an exposition of a registry: a block for each entry, and the end that
/// OpenMetrics requires.
pub open spec fn is_exposition(
    text: Seq<char>,
    prefix: Seq<char>,
    entries: Seq<(Seq<char>, Seq<char>, MetricKind)>,
    counters: Seq<&Counters>,
    durations: Seq<&Durations>,
) -> bool {
    exists|blocks: Seq<Seq<char>>|
        {
            &&& #[trigger] are_blocks(blocks, prefix, entries, counters, durations)
            &&& text == concatenated(blocks) + "# EOF\n"@
        }
}

/// `encode` of `prometheus-client`, into a `String`. Claims that it succeeds for a registry
/// of `Info` metrics, counters, and histograms, which only hand on what the writer returns,
/// and a `String` takes all that is written; and what the text then is, entry by entry. The
/// counters and histograms whose series are told are handed in beside the registry, which
/// shares them. Left unsaid are the order of a family's series, in which a hash map is
/// walked, and the text of a histogram's sum, which is a float.
#[verifier::external_body]
fn encode_registry(
    registry: &Registry,
    counters: &Vec<&Counters>,
    durations: &Vec<&Durations>,
) -> (text: Option<String>)
    ensures
        is_plain(registered(*registry)) ==> text is Some,
        is_plain(registered(*registry)) && registry_prefix(*registry) is Some ==> is_exposition(
            text->0@,
            registry_prefix(*registry)->0,
            registered(*registry),
            counters@,
            durations@,
        ),
{
    let mut text = String::new();
    encode(&mut text, registry).ok()?;
    Some(text)
}

// What is recorded.

/// The rail a payment is made on.
#[derive(Debug, Clone, Copy, PartialEq, Eq, Structural)]
pub enum PaymentRail {
    X402,
    Mpp,
}

/// One call to the outside that a payment waits for.
#[derive(Debug, Clone, Copy, PartialEq, Eq, Structural)]
pub enum PaymentStep {
    Verify,
    Settle,
    Charge,
}

/// Why a request was challenged instead of served.
#[derive(Debug, Clone, Copy, PartialEq, Eq, Structural)]
pub enum ChallengeReason {
    /// It carried no payment.
    NoPayment,
    /// It paid on both rails at once.
    Collision,
    /// It paid on a rail this deployment turned off.
    RailDisabled,
}

/// The label of a rail.
pub open spec fn rail_label(rail: PaymentRail) -> Seq<char> {
    match rail {
        PaymentRail::X402 => "x402"@,
        PaymentRail::Mpp => "mpp"@,
    }
}

/// The label of a step.
pub open spec fn step_label(step: PaymentStep) -> Seq<char> {
    match step {
        PaymentStep::Verify => "verify"@,
        PaymentStep::Settle => "settle"@,
        PaymentStep::Charge => "charge"@,
    }
}

/// The label of a reason.
pub open spec fn reason_label(reason: ChallengeReason) -> Seq<char> {
    match reason {
        ChallengeReason::NoPayment => "no_payment"@,
        ChallengeReason::Collision => "collision"@,
        ChallengeReason::RailDisabled => "rail_disabled"@,
    }
}

impl PaymentRail {
    /// The rail as a label value.
    pub fn label(&self) -> (label: &'static str)
        ensures
            label@ == rail_label(*self),
    {
        match self {
            PaymentRail::X402 => "x402",
            PaymentRail::Mpp => "mpp",
        }
    }
}

impl PaymentStep {
    /// The step as a label value.
    pub fn label(&self) -> (label: &'static str)
        ensures
            label@ == step_label(*self),
    {
        match self {
            PaymentStep::Verify => "verify",
            PaymentStep::Settle => "settle",
            PaymentStep::Charge => "charge",
        }
    }
}

impl ChallengeReason {
    /// The reason as a label value.
    pub fn label(&self) -> (label: &'static str)
        ensures
            label@ == reason_label(*self),
    {
        match self {
            ChallengeReason::NoPayment => "no_payment",
            ChallengeReason::Collision => "collision",
            ChallengeReason::RailDisabled => "rail_disabled",
        }
    }
}

/// Everything the service records, and the registry that renders it.
///
/// Built once at startup and shared, so all recording lands in the one registry the
/// endpoint reads.
pub struct Metrics {
    registry: Registry,
    requests: Counters,
    request_duration: Durations,
    upstream_requests: Counters,
    upstream_duration: Durations,
    challenges: Counters,
    payments: Counters,
    charged: Counters,
    payment_steps: Durations,
}

/// The mathematical value of [`Metrics`].
#[verifier::ext_equal]
pub struct MetricsView {
    pub requests: Map<Seq<(Seq<char>, Seq<char>)>, u64>,
    pub request_duration: Map<Seq<(Seq<char>, Seq<char>)>, Seq<nat>>,
    pub upstream_requests: Map<Seq<(Seq<char>, Seq<char>)>, u64>,
    pub upstream_duration: Map<Seq<(Seq<char>, Seq<char>)>, Seq<nat>>,
    pub challenges: Map<Seq<(Seq<char>, Seq<char>)>, u64>,
    pub payments: Map<Seq<(Seq<char>, Seq<char>)>, u64>,
    pub charged: Map<Seq<(Seq<char>, Seq<char>)>, u64>,
    pub payment_steps: Map<Seq<(Seq<char>, Seq<char>)>, Seq<nat>>,
}

impl View for Metrics {
    type V = MetricsView;

    closed spec fn view(&self) -> MetricsView {
        MetricsView {
            requests: counts(self.requests),
            request_duration: bucket_counts(self.request_duration),
            upstream_requests: counts(self.upstream_requests),
            upstream_duration: bucket_counts(self.upstream_duration),
            challenges: counts(self.challenges),
            payments: counts(self.payments),
            charged: counts(self.charged),
            payment_steps: bucket_counts(self.payment_steps),
        }
    }
}

/// The labels of the build metric: the running version.
pub open spec fn build_labels() -> Seq<(Seq<char>, Seq<char>)> {
    seq![("version"@, VERSION@)]
}

/// The name and the help text of each metric. The registry puts `bx402` before every name.
pub open spec fn metric_names() -> Seq<(Seq<char>, Seq<char>)> {
    seq![
        ("build"@, "Version of the running service"@),
        ("http_requests"@, "Requests answered, by endpoint and status"@),
        ("http_request_duration_seconds"@, "Time to answer a request, payment included"@),
        ("upstream_requests"@, "Calls to the Brave Search API, by endpoint and outcome"@),
        (
            "upstream_duration_seconds"@,
            "Time for one Brave Search API call, response body included"@,
        ),
        ("challenges"@, "Requests challenged instead of served, by endpoint and reason"@),
        ("payments"@, "Payments attempted, by rail, endpoint and outcome"@),
        ("charged_base_units"@, "Base units charged, by rail and endpoint"@),
        (
            "payment_step_duration_seconds"@,
            "Time for one step of a payment, by rail and step"@,
        ),
    ]
}

/// Whether `block` is what an exposition says of the counters called as the `i`-th metric.
pub open spec fn counts_block(
    block: Seq<char>,
    i: int,
    counts: Map<Seq<(Seq<char>, Seq<char>)>, u64>,
) -> bool {
    is_counters_block(block, "bx402"@, metric_names()[i].0, metric_names()[i].1, counts)
}

/// Whether `block` is what an exposition says of the durations called as the `i`-th metric.
pub open spec fn times_block(
    block: Seq<char>,
    i: int,
    counts: Map<Seq<(Seq<char>, Seq<char>)>, Seq<nat>>,
) -> bool {
    is_durations_block(block, "bx402"@, metric_names()[i].0, metric_names()[i].1, counts)
}

/// What every exposition says of the running version.
pub open spec fn build_text() -> Seq<char> {
    info_text("bx402"@, metric_names()[0].0, metric_names()[0].1, build_labels())
}

/// Whether `blocks` tell what was recorded, metric by metric.
pub open spec fn tell(blocks: Seq<Seq<char>>, recorded: MetricsView) -> bool {
    &&& blocks.len() == 9
    &&& blocks[0] == build_text()
    &&& counts_block(blocks[1], 1, recorded.requests)
    &&& times_block(blocks[2], 2, recorded.request_duration)
    &&& counts_block(blocks[3], 3, recorded.upstream_requests)
    &&& times_block(blocks[4], 4, recorded.upstream_duration)
    &&& counts_block(blocks[5], 5, recorded.challenges)
    &&& counts_block(blocks[6], 6, recorded.payments)
    &&& counts_block(blocks[7], 7, recorded.charged)
    &&& times_block(blocks[8], 8, recorded.payment_steps)
}

/// Whether `text` is an exposition of what was recorded: the running version, what was
/// recorded under each name and nothing besides, and the end that OpenMetrics requires.
pub open spec fn exposes(text: Seq<char>, recorded: MetricsView) -> bool {
    exists|blocks: Seq<Seq<char>>| #[trigger]
        tell(blocks, recorded) && text == concatenated(blocks) + "# EOF\n"@
}

/// Whether every counter of a metric has its line in `text`.
pub open spec fn shows_counts(
    text: Seq<char>,
    i: int,
    counts: Map<Seq<(Seq<char>, Seq<char>)>, u64>,
) -> bool {
    forall|labels: Seq<(Seq<char>, Seq<char>)>| #[trigger]
        counts.dom().contains(labels) ==> holds(
            text,
            counter_line(full_name("bx402"@, metric_names()[i].0), labels, counts[labels]),
        )
}

/// Whether every histogram of a metric has the line of its count and those of its buckets in
/// `text`.
pub open spec fn shows_times(
    text: Seq<char>,
    i: int,
    counts: Map<Seq<(Seq<char>, Seq<char>)>, Seq<nat>>,
) -> bool {
    let name = full_name("bx402"@, metric_names()[i].0);
    forall|labels: Seq<(Seq<char>, Seq<char>)>| #[trigger]
        counts.dom().contains(labels) ==> {
            &&& holds(text, count_line(name, labels, counts[labels]))
            &&& forall|b: int|
                0 <= b < bound_texts().len() ==> holds(
                    text,
                    #[trigger] bucket_line(name, labels, counts[labels], b),
                )
        }
}

/// Whether everything that was recorded has its lines in `text`.
pub open spec fn shows(text: Seq<char>, recorded: MetricsView) -> bool {
    &&& holds(text, build_text())
    &&& shows_counts(text, 1, recorded.requests)
    &&& shows_times(text, 2, recorded.request_duration)
    &&& shows_counts(text, 3, recorded.upstream_requests)
    &&& shows_times(text, 4, recorded.upstream_duration)
    &&& shows_counts(text, 5, recorded.challenges)
    &&& shows_counts(text, 6, recorded.payments)
    &&& shows_counts(text, 7, recorded.charged)
    &&& shows_times(text, 8, recorded.payment_steps)
}

/// Metrics in which nothing was recorded yet.
pub open spec fn nothing_recorded() -> MetricsView {
    MetricsView {
        requests: Map::empty(),
        request_duration: Map::empty(),
        upstream_requests: Map::empty(),
        upstream_duration: Map::empty(),
        challenges: Map::empty(),
        payments: Map::empty(),
        charged: Map::empty(),
        payment_steps: Map::empty(),
    }
}

/// What is recorded after one more request was answered.
pub open spec fn with_request(
    recorded: MetricsView,
    endpoint: Seq<char>,
    method: Seq<char>,
    status: u16,
    elapsed_nanos: u64,
) -> MetricsView {
    MetricsView {
        requests: increased(
            recorded.requests,
            seq![
                ("endpoint"@, endpoint),
                ("method"@, method),
                ("status"@, decimal(status as nat)),
            ],
            1,
        ),
        request_duration: observed(
            recorded.request_duration,
            seq![("endpoint"@, endpoint), ("method"@, method)],
            elapsed_nanos,
        ),
        ..recorded
    }
}

/// What is recorded after one more call to the Brave Search API.
pub open spec fn with_upstream(
    recorded: MetricsView,
    endpoint: Seq<char>,
    status: Seq<char>,
    elapsed_nanos: u64,
) -> MetricsView {
    MetricsView {
        upstream_requests: increased(
            recorded.upstream_requests,
            seq![("endpoint"@, endpoint), ("status"@, status)],
            1,
        ),
        upstream_duration: observed(
            recorded.upstream_duration,
            seq![("endpoint"@, endpoint)],
            elapsed_nanos,
        ),
        ..recorded
    }
}

/// What is recorded after one more request was challenged.
pub open spec fn with_challenge(
    recorded: MetricsView,
    endpoint: Seq<char>,
    reason: ChallengeReason,
) -> MetricsView {
    MetricsView {
        challenges: increased(
            recorded.challenges,
            seq![("endpoint"@, endpoint), ("reason"@, reason_label(reason))],
            1,
        ),
        ..recorded
    }
}

/// The labels of a payment's outcome.
pub open spec fn payment_labels(
    rail: PaymentRail,
    endpoint: Seq<char>,
    outcome: Outcome,
) -> Seq<(Seq<char>, Seq<char>)> {
    seq![
        ("rail"@, rail_label(rail)),
        ("endpoint"@, endpoint),
        ("outcome"@, outcome_label(outcome)),
    ]
}

/// The labels of what payments are charged.
pub open spec fn charge_labels(rail: PaymentRail, endpoint: Seq<char>) -> Seq<
    (Seq<char>, Seq<char>),
> {
    seq![("rail"@, rail_label(rail)), ("endpoint"@, endpoint)]
}

/// What is recorded after one more payment ended.
pub open spec fn with_payment(
    recorded: MetricsView,
    rail: PaymentRail,
    endpoint: Seq<char>,
    outcome: Outcome,
    charged: Option<u64>,
) -> MetricsView {
    MetricsView {
        payments: increased(recorded.payments, payment_labels(rail, endpoint, outcome), 1),
        charged: match charged {
            Some(units) => increased(recorded.charged, charge_labels(rail, endpoint), units),
            None => recorded.charged,
        },
        ..recorded
    }
}

/// What is recorded after one more step of a payment was timed.
pub open spec fn with_step(
    recorded: MetricsView,
    rail: PaymentRail,
    step: PaymentStep,
    elapsed_nanos: u64,
) -> MetricsView {
    MetricsView {
        payment_steps: observed(
            recorded.payment_steps,
            seq![("rail"@, rail_label(rail)), ("step"@, step_label(step))],
            elapsed_nanos,
        ),
        ..recorded
    }
}

/// One label.
fn label(name: &str, value: &str) -> (label: (String, String))
    ensures
        label.0@ == name@,
        label.1@ == value@,
{
    (name.to_owned(), value.to_owned())
}

/// Two labels.
fn two_labels(first: (String, String), second: (String, String)) -> (labels: Vec<
    (String, String),
>)
    ensures
        labels_view(labels@) == seq![(first.0@, first.1@), (second.0@, second.1@)],
{
    let mut labels: Vec<(String, String)> = Vec::new();
    labels.push(first);
    labels.push(second);
    assert(labels_view(labels@) == seq![(first.0@, first.1@), (second.0@, second.1@)]);
    labels
}

impl Metrics {
    /// What the registry is to hold: each metric of the service under its own name.
    closed spec fn entries(&self) -> Seq<(Seq<char>, Seq<char>, MetricKind)> {
        let names = metric_names();
        seq![
            (names[0].0, names[0].1, MetricKind::Info(build_labels())),
            (names[1].0, names[1].1, MetricKind::Counters(counters_id(self.requests))),
            (names[2].0, names[2].1, MetricKind::Durations(durations_id(self.request_duration))),
            (names[3].0, names[3].1, MetricKind::Counters(counters_id(self.upstream_requests))),
            (names[4].0, names[4].1, MetricKind::Durations(durations_id(self.upstream_duration))),
            (names[5].0, names[5].1, MetricKind::Counters(counters_id(self.challenges))),
            (names[6].0, names[6].1, MetricKind::Counters(counters_id(self.payments))),
            (names[7].0, names[7].1, MetricKind::Counters(counters_id(self.charged))),
            (names[8].0, names[8].1, MetricKind::Durations(durations_id(self.payment_steps))),
        ]
    }

    /// Whether the registry holds the metrics of the service, each under its own name, and
    /// nothing else. Building the metrics brings it about, and recording keeps it.
    pub closed spec fn wf(&self) -> bool {
        &&& registry_prefix(self.registry) == Some("bx402"@)
        &&& registered(self.registry) == self.entries()
    }

    /// Build the registry and register every metric.
    ///
    /// The `bx402` prefix is applied by the registry, so metrics are registered under bare
    /// names and render prefixed.
    pub fn new() -> (metrics: Metrics)
        ensures
            metrics.wf(),
            metrics@ == nothing_recorded(),
    {
        let mut registry = new_registry("bx402");
        let mut version: Vec<(String, String)> = Vec::new();
        version.push(label("version", VERSION));
        assert(labels_view(version@) == build_labels());
        register_info(&mut registry, "build", "Version of the running service", version);
        let requests = new_counters();
        register_counters(
            &mut registry,
            "http_requests",
            "Requests answered, by endpoint and status",
            &requests,
        );
        let request_duration = new_durations();
        register_durations(
            &mut registry,
            "http_request_duration_seconds",
            "Time to answer a request, payment included",
            &request_duration,
        );
        let upstream_requests = new_counters();
        register_counters(
            &mut registry,
            "upstream_requests",
            "Calls to the Brave Search API, by endpoint and outcome",
            &upstream_requests,
        );
        let upstream_duration = new_durations();
        register_durations(
            &mut registry,
            "upstream_duration_seconds",
            "Time for one Brave Search API call, response body included",
            &upstream_duration,
        );
        let challenges = new_counters();
        register_counters(
            &mut registry,
            "challenges",
            "Requests challenged instead of served, by endpoint and reason",
            &challenges,
        );
        let payments = new_counters();
        register_counters(
            &mut registry,
            "payments",
            "Payments attempted, by rail, endpoint and outcome",
            &payments,
        );
        let charged = new_counters();
        register_counters(
            &mut registry,
            "charged_base_units",
            "Base units charged, by rail and endpoint",
            &charged,
        );
        let payment_steps = new_durations();
        register_durations(
            &mut registry,
            "payment_step_duration_seconds",
            "Time for one step of a payment, by rail and step",
            &payment_steps,
        );
        let metrics = Metrics {
            registry,
            requests,
            request_duration,
            upstream_requests,
            upstream_duration,
            challenges,
            payments,
            charged,
            payment_steps,
        };
        assert(registered(metrics.registry) == metrics.entries());
        metrics
    }

    /// Record one request the service answered.
    pub fn record_request(
        &mut self,
        endpoint: &str,
        method: &str,
        status: u16,
        elapsed_nanos: u64,
    )
        requires
            old(self).wf(),
        ensures
            final(self).wf(),
            final(self)@ == with_request(old(self)@, endpoint@, method@, status, elapsed_nanos),
    {
        let route = two_labels(label("endpoint", endpoint), label("method", method));
        let mut request = two_labels(label("endpoint", endpoint), label("method", method));
        request.push(label("status", &decimal_text(status as u64)));
        assert(labels_view(request@) == seq![
            ("endpoint"@, endpoint@),
            ("method"@, method@),
            ("status"@, decimal(status as nat)),
        ]) by {
            assert(labels_view(request@.drop_last()) == seq![
                ("endpoint"@, endpoint@),
                ("method"@, method@),
            ]);
            assert(labels_view(request@.drop_last())[0] == ("endpoint"@, endpoint@));
            assert(labels_view(request@.drop_last())[1] == ("method"@, method@));
        }
        increase(&mut self.requests, request, 1);
        observe(&mut self.request_duration, route, elapsed_nanos);
    }

    /// Record one call to the Brave Search API. `status` is the response code, or the kind
    /// of failure when no response arrived.
    pub fn record_upstream(&mut self, endpoint: &str, status: &str, elapsed_nanos: u64)
        requires
            old(self).wf(),
        ensures
            final(self).wf(),
            final(self)@ == with_upstream(old(self)@, endpoint@, status@, elapsed_nanos),
    {
        let call = two_labels(label("endpoint", endpoint), label("status", status));
        let mut route: Vec<(String, String)> = Vec::new();
        route.push(label("endpoint", endpoint));
        assert(labels_view(route@) == seq![("endpoint"@, endpoint@)]);
        increase(&mut self.upstream_requests, call, 1);
        observe(&mut self.upstream_duration, route, elapsed_nanos);
    }

    /// Record one request that was challenged instead of served.
    pub fn record_challenge(&mut self, endpoint: &str, reason: ChallengeReason)
        requires
            old(self).wf(),
        ensures
            final(self).wf(),
            final(self)@ == with_challenge(old(self)@, endpoint@, reason),
    {
        let labels = two_labels(label("endpoint", endpoint), label("reason", reason.label()));
        increase(&mut self.challenges, labels, 1);
    }

    /// Record how one payment ended, and what it was charged where it was.
    pub fn record_payment(
        &mut self,
        rail: PaymentRail,
        endpoint: &str,
        outcome: Outcome,
        charged: Option<u64>,
    )
        requires
            old(self).wf(),
        ensures
            final(self).wf(),
            final(self)@ == with_payment(old(self)@, rail, endpoint@, outcome, charged),
    {
        let mut labels = two_labels(label("rail", rail.label()), label("endpoint", endpoint));
        labels.push(label("outcome", outcome.label()));
        assert(labels_view(labels@) == seq![
            ("rail"@, rail_label(rail)),
            ("endpoint"@, endpoint@),
            ("outcome"@, outcome_label(outcome)),
        ]) by {
            assert(labels_view(labels@.drop_last()) == seq![
                ("rail"@, rail_label(rail)),
                ("endpoint"@, endpoint@),
            ]);
            assert(labels_view(labels@.drop_last())[0] == ("rail"@, rail_label(rail)));
            assert(labels_view(labels@.drop_last())[1] == ("endpoint"@, endpoint@));
        }
        increase(&mut self.payments, labels, 1);
        match charged {
            Some(units) => {
                let labels = two_labels(label("rail", rail.label()), label("endpoint", endpoint));
                increase(&mut self.charged, labels, units);
            },
            None => {},
        }
    }

    /// Record how long one step of a payment took, whether or not it went well.
    pub fn record_step(&mut self, rail: PaymentRail, step: PaymentStep, elapsed_nanos: u64)
        requires
            old(self).wf(),
        ensures
            final(self).wf(),
            final(self)@ == with_step(old(self)@, rail, step, elapsed_nanos),
    {
        let labels = two_labels(label("rail", rail.label()), label("step", step.label()));
        observe(&mut self.payment_steps, labels, elapsed_nanos);
    }

    /// Render the current values as an OpenMetrics text exposition: everything that was
    /// recorded in these metrics, under its own name, and nothing else.
    pub fn render(&self) -> (exposition: Option<String>)
        requires
            self.wf(),
        ensures
            exposition is Some,
            exposes(exposition->0@, self@),
            shows(exposition->0@, self@),
    {
        let counters: Vec<&Counters> = vec![
            &self.requests,
            &self.upstream_requests,
            &self.challenges,
            &self.payments,
            &self.charged,
        ];
        let durations: Vec<&Durations> = vec![
            &self.request_duration,
            &self.upstream_duration,
            &self.payment_steps,
        ];
        let exposition = encode_registry(&self.registry, &counters, &durations);
        proof {
            let entries = registered(self.registry);
            let text = exposition->0@;
            assert(is_exposition(text, "bx402"@, entries, counters@, durations@));
            let blocks = choose|blocks: Seq<Seq<char>>|
                {
                    &&& #[trigger] are_blocks(blocks, "bx402"@, entries, counters@, durations@)
                    &&& text == concatenated(blocks) + "# EOF\n"@
                };
            assert(is_block(blocks[0], "bx402"@, entries[0], counters@, durations@));
            assert(is_block(blocks[1], "bx402"@, entries[1], counters@, durations@));
            assert(is_block(blocks[2], "bx402"@, entries[2], counters@, durations@));
            assert(is_block(blocks[3], "bx402"@, entries[3], counters@, durations@));
            assert(is_block(blocks[4], "bx402"@, entries[4], counters@, durations@));
            assert(is_block(blocks[5], "bx402"@, entries[5], counters@, durations@));
            assert(is_block(blocks[6], "bx402"@, entries[6], counters@, durations@));
            assert(is_block(blocks[7], "bx402"@, entries[7], counters@, durations@));
            assert(is_block(blocks[8], "bx402"@, entries[8], counters@, durations@));
            assert(counters@[0] == &self.requests && counters@[1] == &self.upstream_requests);
            assert(counters@[2] == &self.challenges && counters@[3] == &self.payments);
            assert(counters@[4] == &self.charged);
            assert(durations@[0] == &self.request_duration);
            assert(durations@[1] == &self.upstream_duration);
            assert(durations@[2] == &self.payment_steps);
            assert(tell(blocks, self@));
            what_is_recorded_is_shown(text, self@);
        }
        exposition
    }
}

impl Default for Metrics {
    fn default() -> (metrics: Metrics)
        ensures
            metrics.wf(),
            metrics@ == nothing_recorded(),
    {
        Metrics::new()
    }
}

// Labels.

/// The label for a request path.
pub open spec fn path_label(path: Seq<char>) -> Seq<char> {
    if path == HEALTH_PATH@ {
        HEALTH_PATH@
    } else {
        match sold(path) {
            Some(endpoint) => endpoint.path,
            None => OTHER@,
        }
    }
}

/// The label for a request method.
pub open spec fn served_method(method: Seq<char>) -> Seq<char> {
    if method == "GET"@ || method == "POST"@ || method == "HEAD"@ {
        method
    } else {
        OTHER@
    }
}

/// The label for a request path: the paid endpoint it names, the health probe, or
/// [`OTHER`]. Drawn from the catalog rather than the request, so a caller cannot mint label
/// values by asking for paths that do not exist.
pub fn endpoint_label(path: &str) -> (label: &'static str)
    ensures
        label@ == path_label(path@),
{
    if same_text(path, HEALTH_PATH) {
        return HEALTH_PATH;
    }
    match find(path) {
        Some(endpoint) => endpoint.path,
        None => OTHER,
    }
}

/// The label for a request method. Anything the service does not serve collapses to one
/// value, since the method is caller-supplied and otherwise unbounded.
pub fn method_label(method: &str) -> (label: &'static str)
    ensures
        label@ == served_method(method@),
{
    if same_text(method, "GET") {
        "GET"
    } else if same_text(method, "POST") {
        "POST"
    } else if same_text(method, "HEAD") {
        "HEAD"
    } else {
        OTHER
    }
}

/// Count and time one request, including one that matched no route.
pub fn measure(metrics: &mut Metrics, path: &str, method: &str, status: u16, elapsed_nanos: u64)
    requires
        old(metrics).wf(),
    ensures
        final(metrics).wf(),
        final(metrics)@ == with_request(
            old(metrics)@,
            path_label(path@),
            served_method(method@),
            status,
            elapsed_nanos,
        ),
{
    metrics.record_request(endpoint_label(path), method_label(method), status, elapsed_nanos);
}

/// The answer to a scrape.
pub open spec fn exposed(exposition: Option<Seq<char>>) -> ReplyView {
    match exposition {
        Some(text) => ReplyView {
            status: 200,
            headers: seq![("content-type"@, encode_utf8(EXPOSITION@))],
            body: encode_utf8(text),
        },
        None => bare(500),
    }
}

/// Answer a scrape with an exposition, or with an error where there is none.
pub fn expose(exposition: Option<String>) -> (reply: Reply)
    ensures
        reply@ == exposed(crate::http::optional_text(exposition)),
{
    match exposition {
        Some(text) => {
            let mut headers = Headers::new();
            headers.append("content-type", EXPOSITION);
            let reply = Reply { status: 200, headers, body: bytes_of(&text) };
            assert(reply@.headers == seq![("content-type"@, encode_utf8(EXPOSITION@))]);
            reply
        },
        None => Reply::bare(500),
    }
}

proof fn lemma_counts_are_shown(
    text: Seq<char>,
    block: Seq<char>,
    i: int,
    counts: Map<Seq<(Seq<char>, Seq<char>)>, u64>,
)
    requires
        holds(text, block),
        counts_block(block, i, counts),
    ensures
        shows_counts(text, i, counts),
{
    let (name, help) = metric_names()[i];
    assert forall|labels: Seq<(Seq<char>, Seq<char>)>| #[trigger]
        counts.dom().contains(labels) implies holds(
        text,
        counter_line(full_name("bx402"@, name), labels, counts[labels]),
    ) by {
        lemma_counter_is_shown(block, "bx402"@, name, help, counts, labels);
        lemma_holds_within(
            text,
            block,
            counter_line(full_name("bx402"@, name), labels, counts[labels]),
        );
    }
}

proof fn lemma_times_are_shown(
    text: Seq<char>,
    block: Seq<char>,
    i: int,
    counts: Map<Seq<(Seq<char>, Seq<char>)>, Seq<nat>>,
)
    requires
        holds(text, block),
        times_block(block, i, counts),
    ensures
        shows_times(text, i, counts),
{
    let (name, help) = metric_names()[i];
    let full = full_name("bx402"@, name);
    assert forall|labels: Seq<(Seq<char>, Seq<char>)>| #[trigger]
        counts.dom().contains(labels) implies holds(text, count_line(full, labels, counts[labels]))
        && forall|b: int|
        0 <= b < bound_texts().len() ==> holds(
            text,
            #[trigger] bucket_line(full, labels, counts[labels], b),
        ) by {
        lemma_histogram_is_shown(block, "bx402"@, name, help, counts, labels);
        lemma_holds_within(text, block, count_line(full, labels, counts[labels]));
        assert forall|b: int| 0 <= b < bound_texts().len() implies holds(
            text,
            #[trigger] bucket_line(full, labels, counts[labels], b),
        ) by {
            lemma_holds_within(text, block, bucket_line(full, labels, counts[labels], b));
        }
    }
}

/// Whatever was recorded stands in every exposition, line by line.
pub proof fn what_is_recorded_is_shown(text: Seq<char>, recorded: MetricsView)
    requires
        exposes(text, recorded),
    ensures
        shows(text, recorded),
{
    let blocks = choose|blocks: Seq<Seq<char>>| #[trigger]
        tell(blocks, recorded) && text == concatenated(blocks) + "# EOF\n"@;
    let whole = concatenated(blocks);
    assert(text == Seq::<char>::empty() + whole + "# EOF\n"@);
    lemma_holds_between(Seq::empty(), whole, "# EOF\n"@);
    assert forall|i: int| 0 <= i < blocks.len() implies holds(text, #[trigger] blocks[i]) by {
        lemma_concatenated_holds(blocks, i);
        lemma_holds_within(text, whole, blocks[i]);
    }
    lemma_counts_are_shown(text, blocks[1], 1, recorded.requests);
    lemma_times_are_shown(text, blocks[2], 2, recorded.request_duration);
    lemma_counts_are_shown(text, blocks[3], 3, recorded.upstream_requests);
    lemma_times_are_shown(text, blocks[4], 4, recorded.upstream_duration);
    lemma_counts_are_shown(text, blocks[5], 5, recorded.challenges);
    lemma_counts_are_shown(text, blocks[6], 6, recorded.payments);
    lemma_counts_are_shown(text, blocks[7], 7, recorded.charged);
    lemma_times_are_shown(text, blocks[8], 8, recorded.payment_steps);
    assert(holds(text, blocks[0]));
}

/// Metrics in which nothing was recorded expose the running version and nothing else,
/// whatever was recorded in others.
pub proof fn fresh_metrics_expose_the_version_alone(text: Seq<char>)
    ensures
        exposes(text, nothing_recorded()) <==> text == build_text() + "# EOF\n"@,
{
    if exposes(text, nothing_recorded()) {
        let blocks = choose|blocks: Seq<Seq<char>>| #[trigger]
            tell(blocks, nothing_recorded()) && text == concatenated(blocks) + "# EOF\n"@;
        lemma_first_block_alone(blocks);
    }
    if text == build_text() + "# EOF\n"@ {
        let none = Seq::<char>::empty();
        let blocks = seq![build_text(), none, none, none, none, none, none, none, none];
        assert(tell(blocks, nothing_recorded()));
        lemma_first_block_alone(blocks);
    }
}

proof fn lemma_first_block_alone(blocks: Seq<Seq<char>>)
    requires
        blocks.len() > 0,
        forall|i: int| 1 <= i < blocks.len() ==> (#[trigger] blocks[i]).len() == 0,
    ensures
        concatenated(blocks) == blocks[0],
    decreases blocks.len(),
{
    reveal_with_fuel(concatenated, 2);
    let front = blocks.drop_last();
    if blocks.len() > 1 {
        assert(blocks.last() == blocks[blocks.len() - 1]);
        lemma_first_block_alone(front);
        assert(concatenated(blocks) == concatenated(front));
    } else {
        assert(concatenated(front) == Seq::<char>::empty());
        assert(concatenated(blocks) == blocks[0]);
    }
}

/// A settled payment stands in the exposition of the metrics it was recorded in: one more
/// payment with its outcome, and its price on top of what was charged before.
pub proof fn a_settled_payment_is_exposed(
    text: Seq<char>,
    before: MetricsView,
    rail: PaymentRail,
    endpoint: Seq<char>,
    price: u64,
)
    requires
        exposes(text, with_payment(before, rail, endpoint, Outcome::Settled, Some(price))),
        count(before.payments, payment_labels(rail, endpoint, Outcome::Settled)) < u64::MAX,
        count(before.charged, charge_labels(rail, endpoint)) + price <= u64::MAX,
    ensures
        holds(
            text,
            counter_line(
                full_name("bx402"@, "payments"@),
                payment_labels(rail, endpoint, Outcome::Settled),
                (count(before.payments, payment_labels(rail, endpoint, Outcome::Settled)) + 1)
                    as u64,
            ),
        ),
        holds(
            text,
            counter_line(
                full_name("bx402"@, "charged_base_units"@),
                charge_labels(rail, endpoint),
                (count(before.charged, charge_labels(rail, endpoint)) + price) as u64,
            ),
        ),
{
    let after = with_payment(before, rail, endpoint, Outcome::Settled, Some(price));
    what_is_recorded_is_shown(text, after);
    assert(after.payments.dom().contains(payment_labels(rail, endpoint, Outcome::Settled)));
    assert(after.charged.dom().contains(charge_labels(rail, endpoint)));
}

/// No request mints a series: whatever the path and the method, their labels are among a
/// fixed few.
pub proof fn labels_are_a_fixed_set(path: Seq<char>, method: Seq<char>)
    ensures
        path_label(path) == HEALTH_PATH@ || path_label(path) == OTHER@ || exists|i: int|
            0 <= i < catalog().len() && path_label(path) == (#[trigger] catalog()[i]).path,
        served_method(method) == "GET"@ || served_method(method) == "POST"@ || served_method(method)
            == "HEAD"@ || served_method(method) == OTHER@,
{
    sold_is_what_the_catalog_lists(path, 0);
    if let Some(endpoint) = sold(path) {
        let i = choose|i: int| 0 <= i < catalog().len() && catalog()[i] == endpoint;
        assert(catalog()[i].path == path);
    }
}

} // verus!
