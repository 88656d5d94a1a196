//! The OpenMetrics text format, as far as the service's metrics use it: what an exposition
//! says of the running version, of counters, and of durations.

use vstd::prelude::*;

use crate::text::decimal;

verus! {

/// Whether `part` stands somewhere in `text`.
pub open spec fn holds(text: Seq<char>, part: Seq<char>) -> bool {
    exists|before: Seq<char>, after: Seq<char>| text == #[trigger] (before + part + after)
}

/// The parts, one behind the other.
pub open spec fn concatenated(parts: Seq<Seq<char>>) -> Seq<char>
    decreases parts.len(),
{
    if parts.len() == 0 {
        Seq::empty()
    } else {
        concatenated(parts.drop_last()) + parts.last()
    }
}

/// A label value as an exposition writes it: backslash, quote, and line feed escaped.
pub open spec fn escaped(value: Seq<char>) -> Seq<char>
    decreases value.len(),
{
    if value.len() == 0 {
        value
    } else {
        let before = escaped(value.drop_last());
        if value.last() == '\\' {
            before + seq!['\\', '\\']
        } else if value.last() == '"' {
            before + seq!['\\', '"']
        } else if value.last() == '\n' {
            before + seq!['\\', 'n']
        } else {
            before.push(value.last())
        }
    }
}

/// One label as an exposition writes it.
pub open spec fn label_text(label: (Seq<char>, Seq<char>)) -> Seq<char> {
    label.0 + "=\""@ + escaped(label.1) + "\""@
}

/// Labels as an exposition writes them, separated by commas.
pub open spec fn labels_text(labels: Seq<(Seq<char>, Seq<char>)>) -> Seq<char>
    decreases labels.len(),
{
    if labels.len() == 0 {
        Seq::empty()
    } else if labels.len() == 1 {
        label_text(labels[0])
    } else {
        labels_text(labels.drop_last()) + ","@ + label_text(labels.last())
    }
}

/// A metric's name with the prefix before it.
pub open spec fn full_name(prefix: Seq<char>, name: Seq<char>) -> Seq<char> {
    prefix + "_"@ + name
}

/// What an exposition says of a metric before its series: its help text and its type.
pub open spec fn heading(
    prefix: Seq<char>,
    name: Seq<char>,
    help: Seq<char>,
    kind: Seq<char>,
) -> Seq<char> {
    "# HELP "@ + full_name(prefix, name) + " "@ + help + ".\n"@ + "# TYPE "@ + full_name(
        prefix,
        name,
    ) + " "@ + kind + "\n"@
}

/// What an exposition says of an `Info` metric: its heading and its one series.
pub open spec fn info_text(
    prefix: Seq<char>,
    name: Seq<char>,
    help: Seq<char>,
    labels: Seq<(Seq<char>, Seq<char>)>,
) -> Seq<char> {
    heading(prefix, name, help, "info"@) + full_name(prefix, name) + "_info{"@ + labels_text(labels)
        + "} 1\n"@
}

/// A line of an exposition: a series and its value.
pub open spec fn sample(
    name: Seq<char>,
    suffix: Seq<char>,
    labels: Seq<char>,
    value: Seq<char>,
) -> Seq<char> {
    name + suffix + "{"@ + labels + "} "@ + value + "\n"@
}

/// The line of one counter.
pub open spec fn counter_line(
    name: Seq<char>,
    labels: Seq<(Seq<char>, Seq<char>)>,
    count: u64,
) -> Seq<char> {
    sample(name, "_total"@, labels_text(labels), decimal(count as nat))
}

/// Whether `order` lists exactly what is in `all`, each once.
pub open spec fn lists(
    order: Seq<Seq<(Seq<char>, Seq<char>)>>,
    all: Set<Seq<(Seq<char>, Seq<char>)>>,
) -> bool {
    &&& order.no_duplicates()
    &&& forall|labels: Seq<(Seq<char>, Seq<char>)>| #[trigger]
        order.contains(labels) <==> all.contains(labels)
}

/// The lines of counters, in an order.
pub open spec fn counter_lines(
    name: Seq<char>,
    counts: Map<Seq<(Seq<char>, Seq<char>)>, u64>,
    order: Seq<Seq<(Seq<char>, Seq<char>)>>,
) -> Seq<Seq<char>> {
    Seq::new(order.len(), |i: int| counter_line(name, order[i], counts[order[i]]))
}

/// Whether `block` is what an exposition says of counters: nothing where there are none,
/// else the heading and one line for each, in any order.
pub open spec fn is_counters_block(
    block: Seq<char>,
    prefix: Seq<char>,
    name: Seq<char>,
    help: Seq<char>,
    counts: Map<Seq<(Seq<char>, Seq<char>)>, u64>,
) -> bool {
    if counts.dom().is_empty() {
        block.len() == 0
    } else {
        exists|order: Seq<Seq<(Seq<char>, Seq<char>)>>|
            {
                &&& #[trigger] lists(order, counts.dom())
                &&& block == heading(prefix, name, help, "counter"@) + concatenated(
                    counter_lines(full_name(prefix, name), counts, order),
                )
            }
    }
}

/// The bounds of the buckets that durations are counted in, in seconds, as an exposition
/// writes them.
pub open spec fn bound_texts() -> Seq<Seq<char>> {
    seq![
        "0.05"@,
        "0.1"@,
        "0.25"@,
        "0.5"@,
        "1.0"@,
        "2.0"@,
        "3.0"@,
        "5.0"@,
        "8.0"@,
        "15.0"@,
        "30.0"@,
        "+Inf"@,
    ]
}

/// How many durations the first `n` buckets count together.
pub open spec fn counted(buckets: Seq<nat>, n: int) -> nat
    decreases n,
{
    if n <= 0 {
        0
    } else {
        counted(buckets, n - 1) + buckets[n - 1]
    }
}

/// The line that tells how many durations a histogram counts.
pub open spec fn count_line(
    name: Seq<char>,
    labels: Seq<(Seq<char>, Seq<char>)>,
    buckets: Seq<nat>,
) -> Seq<char> {
    sample(
        name,
        "_count"@,
        labels_text(labels),
        decimal(counted(buckets, buckets.len() as int)),
    )
}

/// The labels of a bucket's line: the bound, and the histogram's own behind it.
pub open spec fn bucket_labels(labels: Seq<(Seq<char>, Seq<char>)>, i: int) -> Seq<char> {
    let bound = "le=\""@ + bound_texts()[i] + "\""@;
    if labels.len() == 0 {
        bound
    } else {
        bound + ","@ + labels_text(labels)
    }
}

/// The line of one bucket: how many durations are within its bound.
pub open spec fn bucket_line(
    name: Seq<char>,
    labels: Seq<(Seq<char>, Seq<char>)>,
    buckets: Seq<nat>,
    i: int,
) -> Seq<char> {
    sample(name, "_bucket"@, bucket_labels(labels, i), decimal(counted(buckets, i + 1)))
}

/// The lines of the buckets.
pub open spec fn bucket_lines(
    name: Seq<char>,
    labels: Seq<(Seq<char>, Seq<char>)>,
    buckets: Seq<nat>,
) -> Seq<Seq<char>> {
    Seq::new(bound_texts().len(), |i: int| bucket_line(name, labels, buckets, i))
}

/// What an exposition says of one histogram, with its sum of durations written as `sum`.
pub open spec fn histogram_text(
    name: Seq<char>,
    labels: Seq<(Seq<char>, Seq<char>)>,
    buckets: Seq<nat>,
    sum: Seq<char>,
) -> Seq<char> {
    sample(name, "_sum"@, labels_text(labels), sum) + count_line(name, labels, buckets)
        + concatenated(bucket_lines(name, labels, buckets))
}

/// Whether `text` is what an exposition says of one histogram, whatever its sum.
pub open spec fn is_histogram(
    text: Seq<char>,
    name: Seq<char>,
    labels: Seq<(Seq<char>, Seq<char>)>,
    buckets: Seq<nat>,
) -> bool {
    exists|sum: Seq<char>|
        !sum.contains('\n') && text == #[trigger] histogram_text(name, labels, buckets, sum)
}

/// Whether `texts` are what an exposition says of histograms, in an order.
pub open spec fn are_histograms(
    texts: Seq<Seq<char>>,
    name: Seq<char>,
    counts: Map<Seq<(Seq<char>, Seq<char>)>, Seq<nat>>,
    order: Seq<Seq<(Seq<char>, Seq<char>)>>,
) -> bool {
    &&& texts.len() == order.len()
    &&& forall|i: int|
        0 <= i < order.len() ==> is_histogram(#[trigger] texts[i], name, order[i], counts[order[i]])
}

/// Whether `block` is what an exposition says of durations: nothing where there are none,
/// else the heading and each histogram, in any order.
pub open spec fn is_durations_block(
    block: Seq<char>,
    prefix: Seq<char>,
    name: Seq<char>,
    help: Seq<char>,
    counts: Map<Seq<(Seq<char>, Seq<char>)>, Seq<nat>>,
) -> bool {
    if counts.dom().is_empty() {
        block.len() == 0
    } else {
        exists|order: Seq<Seq<(Seq<char>, Seq<char>)>>, texts: Seq<Seq<char>>|
            {
                &&& lists(order, counts.dom())
                &&& #[trigger] are_histograms(texts, full_name(prefix, name), counts, order)
                &&& block == heading(prefix, name, help, "histogram"@) + concatenated(texts)
            }
    }
}

/// Text holds itself with more around it.
pub proof fn lemma_holds_between(before: Seq<char>, part: Seq<char>, after: Seq<char>)
    ensures
        holds(before + part + after, part),
{
}

/// What stands in a part of a text stands in the text.
pub proof fn lemma_holds_within(text: Seq<char>, part: Seq<char>, inner: Seq<char>)
    requires
        holds(text, part),
        holds(part, inner),
    ensures
        holds(text, inner),
{
    let (b1, a1) = choose|before: Seq<char>, after: Seq<char>|
        text == #[trigger] (before + part + after);
    let (b2, a2) = choose|before: Seq<char>, after: Seq<char>|
        part == #[trigger] (before + inner + after);
    assert(text == (b1 + b2) + inner + (a2 + a1));
}

/// The parts stand in what they make up.
pub proof fn lemma_concatenated_holds(parts: Seq<Seq<char>>, i: int)
    requires
        0 <= i < parts.len(),
    ensures
        holds(concatenated(parts), parts[i]),
    decreases parts.len(),
{
    let front = concatenated(parts.drop_last());
    if i == parts.len() - 1 {
        assert(concatenated(parts) == front + parts[i] + Seq::<char>::empty());
    } else {
        lemma_concatenated_holds(parts.drop_last(), i);
        assert(concatenated(parts) == Seq::<char>::empty() + front + parts.last());
        lemma_holds_between(Seq::empty(), front, parts.last());
        lemma_holds_within(concatenated(parts), front, parts[i]);
    }
}

/// Every counter has its line.
pub proof fn lemma_counter_is_shown(
    block: Seq<char>,
    prefix: Seq<char>,
    name: Seq<char>,
    help: Seq<char>,
    counts: Map<Seq<(Seq<char>, Seq<char>)>, u64>,
    labels: Seq<(Seq<char>, Seq<char>)>,
)
    requires
        is_counters_block(block, prefix, name, help, counts),
        counts.dom().contains(labels),
    ensures
        holds(block, counter_line(full_name(prefix, name), labels, counts[labels])),
{
    let full = full_name(prefix, name);
    let order = choose|order: Seq<Seq<(Seq<char>, Seq<char>)>>|
        {
            &&& #[trigger] lists(order, counts.dom())
            &&& block == heading(prefix, name, help, "counter"@) + concatenated(
                counter_lines(full, counts, order),
            )
        };
    assert(order.contains(labels));
    let i = choose|i: int| 0 <= i < order.len() && order[i] == labels;
    let lines = counter_lines(full, counts, order);
    assert(lines[i] == counter_line(full, labels, counts[labels]));
    lemma_concatenated_holds(lines, i);
    let top = heading(prefix, name, help, "counter"@);
    assert(block == top + concatenated(lines) + Seq::<char>::empty());
    lemma_holds_between(top, concatenated(lines), Seq::empty());
    lemma_holds_within(block, concatenated(lines), lines[i]);
}

/// Every histogram has the line of its count and those of its buckets.
pub proof fn lemma_histogram_is_shown(
    block: Seq<char>,
    prefix: Seq<char>,
    name: Seq<char>,
    help: Seq<char>,
    counts: Map<Seq<(Seq<char>, Seq<char>)>, Seq<nat>>,
    labels: Seq<(Seq<char>, Seq<char>)>,
)
    requires
        is_durations_block(block, prefix, name, help, counts),
        counts.dom().contains(labels),
    ensures
        holds(block, count_line(full_name(prefix, name), labels, counts[labels])),
        forall|b: int|
            0 <= b < bound_texts().len() ==> holds(
                block,
                #[trigger] bucket_line(full_name(prefix, name), labels, counts[labels], b),
            ),
{
    let full = full_name(prefix, name);
    let (order, texts) = choose|
        order: Seq<Seq<(Seq<char>, Seq<char>)>>,
        texts: Seq<Seq<char>>,
    |
        {
            &&& lists(order, counts.dom())
            &&& #[trigger] are_histograms(texts, full, counts, order)
            &&& block == heading(prefix, name, help, "histogram"@) + concatenated(texts)
        };
    assert(order.contains(labels));
    let i = choose|i: int| 0 <= i < order.len() && order[i] == labels;
    let text = texts[i];
    assert(is_histogram(text, full, labels, counts[labels]));
    lemma_concatenated_holds(texts, i);
    let top = heading(prefix, name, help, "histogram"@);
    assert(block == top + concatenated(texts) + Seq::<char>::empty());
    lemma_holds_between(top, concatenated(texts), Seq::empty());
    lemma_holds_within(block, concatenated(texts), text);
    let buckets = counts[labels];
    let sum = choose|sum: Seq<char>|
        !sum.contains('\n') && text == #[trigger] histogram_text(full, labels, buckets, sum);
    let first = sample(full, "_sum"@, labels_text(labels), sum);
    let second = count_line(full, labels, buckets);
    let lines = bucket_lines(full, labels, buckets);
    lemma_holds_between(first, second, concatenated(lines));
    lemma_holds_within(block, text, second);
    assert(text == (first + second) + concatenated(lines) + Seq::<char>::empty());
    lemma_holds_between(first + second, concatenated(lines), Seq::empty());
    assert forall|b: int| 0 <= b < bound_texts().len() implies holds(
        block,
        #[trigger] bucket_line(full, labels, buckets, b),
    ) by {
        lemma_concatenated_holds(lines, b);
        lemma_holds_within(text, concatenated(lines), lines[b]);
        lemma_holds_within(block, text, lines[b]);
    }
}

} // verus!
