//! Metric descriptors: deriving one from a metric, and the per-exporter
//! create-once cache.
//!
//! A descriptor's identity is solely its type string, `<prefix>/<name>`. Its
//! label schema is the union of the attribute keys across every data point of
//! the metric in the current snapshot, normalized, plus the synthetic
//! uniqueness label when that flag is set. The cache maps type strings to
//! descriptors; entries are created once per exporter and never evicted.
//! Remote creation is attempted at most once per metric and cycle: success
//! and "already exists" both commit the locally built descriptor, permission
//! denial abandons the cycle, and any other error skips the metric until the
//! next cycle.

use vstd::prelude::*;

use crate::labels::{normalize_label_key, normalize_label_key_spec};
use crate::model::{AggregationData, ExponentialHistogramPoint, HistogramPoint, Metric,
    NumericKind, ScalarPoint};
use crate::series::{unique_identifier_key, unique_identifier_label_key};
use crate::wire::{MetricDescriptor, MetricDescriptorV, MetricKind, ValueType};

verus! {

/// The keys of an attribute pair sequence, in order.
pub open spec fn attr_keys(attrs: Seq<(Seq<char>, Seq<char>)>) -> Seq<Seq<char>> {
    attrs.map_values(|p: (Seq<char>, Seq<char>)| p.0)
}

/// Append a key to an accumulated key list unless it is already present.
pub open spec fn push_unseen(acc: Seq<Seq<char>>, key: Seq<char>) -> Seq<Seq<char>> {
    if acc.contains(key) {
        acc
    } else {
        acc.push(key)
    }
}

/// Fold a key sequence into an accumulated key list, keeping the first
/// occurrence of each key.
pub open spec fn add_keys(acc: Seq<Seq<char>>, keys: Seq<Seq<char>>) -> Seq<Seq<char>>
    decreases keys.len(),
{
    if keys.len() == 0 {
        acc
    } else {
        add_keys(push_unseen(acc, keys[0]), keys.drop_first())
    }
}

/// Fold several key sequences into an accumulated key list, in order.
pub open spec fn add_keys_all(acc: Seq<Seq<char>>, key_seqs: Seq<Seq<Seq<char>>>) -> Seq<
    Seq<char>,
>
    decreases key_seqs.len(),
{
    if key_seqs.len() == 0 {
        acc
    } else {
        add_keys_all(add_keys(acc, key_seqs[0]), key_seqs.drop_first())
    }
}

/// Membership in a sequence extended by one element.
proof fn lemma_push_contains(s: Seq<Seq<char>>, x: Seq<char>, k: Seq<char>)
    ensures
        s.push(x).contains(k) <==> (s.contains(k) || k == x),
{
    if s.push(x).contains(k) {
        let i = choose|i: int| 0 <= i < s.push(x).len() && s.push(x)[i] == k;
        if i < s.len() {
            assert(s[i] == k);
        }
    }
    if s.contains(k) {
        let i = choose|i: int| 0 <= i < s.len() && s[i] == k;
        assert(s.push(x)[i] == k);
    }
    if k == x {
        assert(s.push(x)[s.len() as int] == x);
    }
}

/// Folding one more key behaves as folding the rest and then that key.
proof fn lemma_add_keys_snoc(acc: Seq<Seq<char>>, keys: Seq<Seq<char>>, key: Seq<char>)
    ensures
        add_keys(acc, keys.push(key)) == push_unseen(add_keys(acc, keys), key),
    decreases keys.len(),
{
    let kp = keys.push(key);
    if keys.len() == 0 {
        assert(kp[0] == key);
        assert(kp.drop_first() =~= Seq::<Seq<char>>::empty());
        assert(add_keys(acc, kp) == add_keys(push_unseen(acc, key), kp.drop_first()));
        assert(add_keys(push_unseen(acc, key), kp.drop_first()) == push_unseen(acc, key));
        assert(add_keys(acc, keys) == acc);
    } else {
        assert(kp[0] == keys[0]);
        assert(kp.drop_first() =~= keys.drop_first().push(key));
        assert(add_keys(acc, kp) == add_keys(push_unseen(acc, keys[0]), kp.drop_first()));
        lemma_add_keys_snoc(push_unseen(acc, keys[0]), keys.drop_first(), key);
        assert(add_keys(acc, keys) == add_keys(push_unseen(acc, keys[0]), keys.drop_first()));
    }
}

/// Folding one more key sequence behaves as folding the rest and then that
/// sequence.
proof fn lemma_add_keys_all_snoc(
    acc: Seq<Seq<char>>,
    key_seqs: Seq<Seq<Seq<char>>>,
    keys: Seq<Seq<char>>,
)
    ensures
        add_keys_all(acc, key_seqs.push(keys)) == add_keys(add_keys_all(acc, key_seqs), keys),
    decreases key_seqs.len(),
{
    let kp = key_seqs.push(keys);
    if key_seqs.len() == 0 {
        assert(kp[0] == keys);
        assert(kp.drop_first() =~= Seq::<Seq<Seq<char>>>::empty());
        assert(add_keys_all(acc, kp) == add_keys_all(add_keys(acc, keys), kp.drop_first()));
        assert(add_keys_all(add_keys(acc, keys), kp.drop_first()) == add_keys(acc, keys));
        assert(add_keys_all(acc, key_seqs) == acc);
    } else {
        assert(kp[0] == key_seqs[0]);
        assert(kp.drop_first() =~= key_seqs.drop_first().push(keys));
        assert(add_keys_all(acc, kp) == add_keys_all(
            add_keys(acc, key_seqs[0]),
            kp.drop_first(),
        ));
        lemma_add_keys_all_snoc(add_keys(acc, key_seqs[0]), key_seqs.drop_first(), keys);
        assert(add_keys_all(acc, key_seqs) == add_keys_all(
            add_keys(acc, key_seqs[0]),
            key_seqs.drop_first(),
        ));
    }
}

/// The attribute key sequences of a metric's data points, one per point, in
/// order.
pub open spec fn metric_attr_key_seqs(metric: Metric) -> Seq<Seq<Seq<char>>> {
    match metric.data {
        AggregationData::Sum { points, .. } => points@.map_values(
            |p: ScalarPoint| attr_keys(p.attributes.deep_view()),
        ),
        AggregationData::Gauge { points, .. } => points@.map_values(
            |p: ScalarPoint| attr_keys(p.attributes.deep_view()),
        ),
        AggregationData::Histogram { points, .. } => points@.map_values(
            |p: HistogramPoint| attr_keys(p.attributes.deep_view()),
        ),
        AggregationData::ExponentialHistogram { points, .. } => points@.map_values(
            |p: ExponentialHistogramPoint| attr_keys(p.attributes.deep_view()),
        ),
    }
}

/// The union of the attribute keys across every data point of the metric,
/// first occurrence first.
pub open spec fn metric_label_keys(metric: Metric) -> Seq<Seq<char>> {
    add_keys_all(Seq::empty(), metric_attr_key_seqs(metric))
}

/// The collected key union is exactly the keys the data points carry: every
/// collected key occurs in some data point of the metric, and every data
/// point's key is collected.
pub proof fn lemma_metric_label_keys_complete(metric: Metric)
    ensures
        forall|k: Seq<char>| #[trigger] metric_label_keys(metric).contains(k) <==> exists|i: int|
            0 <= i < metric_attr_key_seqs(metric).len() && #[trigger] metric_attr_key_seqs(
                metric,
            )[i].contains(k),
{
    lemma_add_keys_all_membership(Seq::empty(), metric_attr_key_seqs(metric));
    assert forall|k: Seq<char>| !Seq::<Seq<char>>::empty().contains(k) by {
        if Seq::<Seq<char>>::empty().contains(k) {
            let i = choose|i: int|
                0 <= i < Seq::<Seq<char>>::empty().len() && Seq::<Seq<char>>::empty()[i] == k;
        }
    }
}

/// Membership after folding several key sequences: a key is present exactly
/// when it was present before or occurs in one of the folded sequences.
proof fn lemma_add_keys_all_membership(acc: Seq<Seq<char>>, key_seqs: Seq<Seq<Seq<char>>>)
    ensures
        forall|k: Seq<char>| #[trigger] add_keys_all(acc, key_seqs).contains(k) <==> (acc.contains(
            k,
        ) || exists|i: int|
            0 <= i < key_seqs.len() && #[trigger] key_seqs[i].contains(k)),
    decreases key_seqs.len(),
{
    if key_seqs.len() > 0 {
        lemma_add_keys_membership(acc, key_seqs[0]);
        lemma_add_keys_all_membership(add_keys(acc, key_seqs[0]), key_seqs.drop_first());
        assert forall|k: Seq<char>|
            #[trigger] add_keys_all(acc, key_seqs).contains(k) <==> (acc.contains(k) || exists|
                i: int,
            |
                0 <= i < key_seqs.len() && #[trigger] key_seqs[i].contains(k)) by {
            assert(add_keys_all(acc, key_seqs) == add_keys_all(
                add_keys(acc, key_seqs[0]),
                key_seqs.drop_first(),
            ));
            if add_keys_all(acc, key_seqs).contains(k) {
                if !acc.contains(k) {
                    if add_keys(acc, key_seqs[0]).contains(k) {
                        assert(key_seqs[0].contains(k));
                    } else {
                        let i = choose|i: int|
                            0 <= i < key_seqs.drop_first().len()
                                && #[trigger] key_seqs.drop_first()[i].contains(k);
                        assert(key_seqs[i + 1].contains(k));
                    }
                }
            }
            if acc.contains(k) {
                assert(add_keys(acc, key_seqs[0]).contains(k));
            }
            if exists|i: int| 0 <= i < key_seqs.len() && #[trigger] key_seqs[i].contains(k) {
                let i = choose|i: int|
                    0 <= i < key_seqs.len() && #[trigger] key_seqs[i].contains(k);
                if i == 0 {
                    assert(add_keys(acc, key_seqs[0]).contains(k));
                } else {
                    assert(key_seqs.drop_first()[i - 1].contains(k));
                }
            }
        }
    }
}

/// Membership after appending one key unless seen.
proof fn lemma_push_unseen_contains(acc: Seq<Seq<char>>, x: Seq<char>, k: Seq<char>)
    ensures
        push_unseen(acc, x).contains(k) <==> (acc.contains(k) || k == x),
{
    if acc.contains(x) {
        assert(push_unseen(acc, x) == acc);
    } else {
        lemma_push_contains(acc, x, k);
    }
}

/// Membership after folding one key sequence: a key is present exactly when
/// it was present before or occurs in the folded sequence.
proof fn lemma_add_keys_membership(acc: Seq<Seq<char>>, keys: Seq<Seq<char>>)
    ensures
        forall|k: Seq<char>| #[trigger] add_keys(acc, keys).contains(k) <==> (acc.contains(k)
            || keys.contains(k)),
    decreases keys.len(),
{
    if keys.len() == 0 {
        assert forall|k: Seq<char>| !keys.contains(k) by {
            if keys.contains(k) {
                let i = choose|i: int| 0 <= i < keys.len() && keys[i] == k;
            }
        }
    } else {
        let acc1 = push_unseen(acc, keys[0]);
        lemma_add_keys_membership(acc1, keys.drop_first());
        assert(add_keys(acc, keys) == add_keys(acc1, keys.drop_first()));
        assert forall|k: Seq<char>|
            #[trigger] add_keys(acc, keys).contains(k) <==> (acc.contains(k) || keys.contains(
                k,
            )) by {
            lemma_push_unseen_contains(acc, keys[0], k);
            if keys.contains(k) {
                let i = choose|i: int| 0 <= i < keys.len() && keys[i] == k;
                if i > 0 {
                    assert(keys.drop_first()[i - 1] == k);
                }
            }
            if keys.drop_first().contains(k) {
                let i = choose|i: int|
                    0 <= i < keys.drop_first().len() && keys.drop_first()[i] == k;
                assert(keys[i + 1] == k);
            }
            if k == keys[0] {
                assert(keys[0] == k);
            }
        }
    }
}

/// The label keys a metric's descriptor declares: the union of the data
/// points' attribute keys, normalized, plus the synthetic uniqueness label
/// when that flag is set.
pub open spec fn descriptor_label_keys(metric: Metric, add_unique_identifier: bool) -> Seq<
    Seq<char>,
> {
    let normalized = metric_label_keys(metric).map_values(
        |k: Seq<char>| normalize_label_key_spec(k),
    );
    if add_unique_identifier {
        normalized.push(unique_identifier_label_key())
    } else {
        normalized
    }
}

/// The metric kind a metric's descriptor declares: histograms are cumulative,
/// monotonic sums are cumulative, non-monotonic sums and gauges are gauges.
pub open spec fn descriptor_metric_kind_spec(metric: Metric) -> MetricKind {
    match metric.data {
        AggregationData::Sum { monotonic, .. } => if monotonic {
            MetricKind::Cumulative
        } else {
            MetricKind::Gauge
        },
        AggregationData::Gauge { .. } => MetricKind::Gauge,
        AggregationData::Histogram { .. } => MetricKind::Cumulative,
        AggregationData::ExponentialHistogram { .. } => MetricKind::Cumulative,
    }
}

/// The value type a metric's descriptor declares: histograms are
/// distributions; sums and gauges are doubles for the double numeric kind
/// and signed integers otherwise.
pub open spec fn descriptor_value_type_spec(metric: Metric) -> ValueType {
    match metric.data {
        AggregationData::Histogram { .. } => ValueType::Distribution,
        AggregationData::ExponentialHistogram { .. } => ValueType::Distribution,
        _ => match metric.numeric_kind {
            NumericKind::Double => ValueType::Double,
            NumericKind::Int64 => ValueType::Int64,
            NumericKind::UInt64 => ValueType::Int64,
        },
    }
}

/// The descriptor type string of a metric under a prefix: `<prefix>/<name>`.
pub open spec fn descriptor_type_spec(prefix: Seq<char>, name: Seq<char>) -> Seq<char> {
    prefix + seq!['/'] + name
}

/// Build the descriptor type string of a metric name under a prefix.
pub fn descriptor_type_string(prefix: &String, name: &String) -> (r: String)
    ensures
        r@ == descriptor_type_spec(prefix@, name@),
{
    let mut r = prefix.clone();
    r.append("/");
    r.append(name.as_str());
    proof {
        reveal_strlit("/");
        assert(r@ =~= descriptor_type_spec(prefix@, name@));
    }
    r
}

/// The descriptor a metric produces under a prefix.
pub open spec fn descriptor_spec(
    metric: Metric,
    prefix: Seq<char>,
    add_unique_identifier: bool,
) -> MetricDescriptorV {
    MetricDescriptorV {
        descriptor_type: descriptor_type_spec(prefix, metric.name@),
        display_name: metric.name@,
        description: metric.description@,
        unit: metric.unit@,
        label_keys: descriptor_label_keys(metric, add_unique_identifier),
        metric_kind: descriptor_metric_kind_spec(metric),
        value_type: descriptor_value_type_spec(metric),
    }
}

/// Whether a key list holds the given key.
fn contains_string(keys: &Vec<String>, key: &String) -> (r: bool)
    ensures
        r == keys.deep_view().contains(key@),
{
    let mut i: usize = 0;
    while i < keys.len()
        invariant
            i <= keys.len(),
            forall|j: int| 0 <= j < i ==> keys.deep_view()[j] != key@,
        decreases keys.len() - i,
    {
        if keys[i] == *key {
            proof {
                assert(keys.deep_view()[i as int] == key@);
            }
            return true;
        }
        i = i + 1;
    }
    proof {
        assert(!keys.deep_view().contains(key@));
    }
    false
}

/// Add every attribute key of one data point that was not seen yet.
fn add_point_keys(keys: &mut Vec<String>, attributes: &Vec<(String, String)>)
    ensures
        final(keys).deep_view() == add_keys(
            old(keys).deep_view(),
            attr_keys(attributes.deep_view()),
        ),
{
    let ghost key_seq = attr_keys(attributes.deep_view());
    let mut i: usize = 0;
    while i < attributes.len()
        invariant
            i <= attributes.len(),
            key_seq == attr_keys(attributes.deep_view()),
            keys.deep_view() == add_keys(old(keys).deep_view(), key_seq.subrange(0, i as int)),
        decreases attributes.len() - i,
    {
        let key = &attributes[i].0;
        proof {
            assert(key_seq[i as int] == key@);
            lemma_add_keys_snoc(old(keys).deep_view(), key_seq.subrange(0, i as int), key@);
            assert(key_seq.subrange(0, i as int).push(key@) =~= key_seq.subrange(0, i + 1));
        }
        if !contains_string(keys, key) {
            let ghost pre = keys@;
            proof {
                assert(keys.deep_view().len() == pre.len());
            }
            keys.push(key.clone());
            proof {
                assert(keys.deep_view() =~= add_keys(old(keys).deep_view(), key_seq.subrange(0, i as int)).push(key@));
            }
        }
        i = i + 1;
    }
    proof {
        assert(key_seq.subrange(0, key_seq.len() as int) =~= key_seq);
    }
}

/// Collect the union of the attribute keys across every data point of the
/// metric, first occurrence first.
pub fn collect_metric_label_keys(metric: &Metric) -> (keys: Vec<String>)
    ensures
        keys.deep_view() == metric_label_keys(*metric),
{
    let ghost key_seqs = metric_attr_key_seqs(*metric);
    let mut keys: Vec<String> = Vec::new();
    proof {
        assert(keys.deep_view() =~= Seq::<Seq<char>>::empty());
    }
    match &metric.data {
        AggregationData::Sum { points, .. } => {
            let mut j: usize = 0;
            while j < points.len()
                invariant
                    j <= points.len(),
                    key_seqs == metric_attr_key_seqs(*metric),
                    key_seqs.len() == points@.len(),
                    forall|i: int| 0 <= i < points@.len() ==> key_seqs[i] == attr_keys(
                        #[trigger] points@[i].attributes.deep_view(),
                    ),
                    keys.deep_view() == add_keys_all(
                        Seq::empty(),
                        key_seqs.subrange(0, j as int),
                    ),
                decreases points.len() - j,
            {
                proof {
                    lemma_add_keys_all_snoc(
                        Seq::empty(),
                        key_seqs.subrange(0, j as int),
                        key_seqs[j as int],
                    );
                    assert(key_seqs.subrange(0, j as int).push(key_seqs[j as int])
                        =~= key_seqs.subrange(0, j + 1));
                }
                add_point_keys(&mut keys, &points[j].attributes);
                j = j + 1;
            }
            proof {
                assert(key_seqs.subrange(0, key_seqs.len() as int) =~= key_seqs);
            }
        },
        AggregationData::Gauge { points, .. } => {
            let mut j: usize = 0;
            while j < points.len()
                invariant
                    j <= points.len(),
                    key_seqs == metric_attr_key_seqs(*metric),
                    key_seqs.len() == points@.len(),
                    forall|i: int| 0 <= i < points@.len() ==> key_seqs[i] == attr_keys(
                        #[trigger] points@[i].attributes.deep_view(),
                    ),
                    keys.deep_view() == add_keys_all(
                        Seq::empty(),
                        key_seqs.subrange(0, j as int),
                    ),
                decreases points.len() - j,
            {
                proof {
                    lemma_add_keys_all_snoc(
                        Seq::empty(),
                        key_seqs.subrange(0, j as int),
                        key_seqs[j as int],
                    );
                    assert(key_seqs.subrange(0, j as int).push(key_seqs[j as int])
                        =~= key_seqs.subrange(0, j + 1));
                }
                add_point_keys(&mut keys, &points[j].attributes);
                j = j + 1;
            }
            proof {
                assert(key_seqs.subrange(0, key_seqs.len() as int) =~= key_seqs);
            }
        },
        AggregationData::Histogram { points, .. } => {
            let mut j: usize = 0;
            while j < points.len()
                invariant
                    j <= points.len(),
                    key_seqs == metric_attr_key_seqs(*metric),
                    key_seqs.len() == points@.len(),
                    forall|i: int| 0 <= i < points@.len() ==> key_seqs[i] == attr_keys(
                        #[trigger] points@[i].attributes.deep_view(),
                    ),
                    keys.deep_view() == add_keys_all(
                        Seq::empty(),
                        key_seqs.subrange(0, j as int),
                    ),
                decreases points.len() - j,
            {
                proof {
                    lemma_add_keys_all_snoc(
                        Seq::empty(),
                        key_seqs.subrange(0, j as int),
                        key_seqs[j as int],
                    );
                    assert(key_seqs.subrange(0, j as int).push(key_seqs[j as int])
                        =~= key_seqs.subrange(0, j + 1));
                }
                add_point_keys(&mut keys, &points[j].attributes);
                j = j + 1;
            }
            proof {
                assert(key_seqs.subrange(0, key_seqs.len() as int) =~= key_seqs);
            }
        },
        AggregationData::ExponentialHistogram { points, .. } => {
            let mut j: usize = 0;
            while j < points.len()
                invariant
                    j <= points.len(),
                    key_seqs == metric_attr_key_seqs(*metric),
                    key_seqs.len() == points@.len(),
                    forall|i: int| 0 <= i < points@.len() ==> key_seqs[i] == attr_keys(
                        #[trigger] points@[i].attributes.deep_view(),
                    ),
                    keys.deep_view() == add_keys_all(
                        Seq::empty(),
                        key_seqs.subrange(0, j as int),
                    ),
                decreases points.len() - j,
            {
                proof {
                    lemma_add_keys_all_snoc(
                        Seq::empty(),
                        key_seqs.subrange(0, j as int),
                        key_seqs[j as int],
                    );
                    assert(key_seqs.subrange(0, j as int).push(key_seqs[j as int])
                        =~= key_seqs.subrange(0, j + 1));
                }
                add_point_keys(&mut keys, &points[j].attributes);
                j = j + 1;
            }
            proof {
                assert(key_seqs.subrange(0, key_seqs.len() as int) =~= key_seqs);
            }
        },
    }
    keys
}

/// Build the descriptor of a metric under a prefix: its identity is
/// `<prefix>/<name>`, its label schema the normalized union of the data
/// points' attribute keys (plus the uniqueness label when enabled), and its
/// kind and value type follow the aggregation and numeric kinds.
pub fn build_descriptor(metric: &Metric, prefix: &String, add_unique_identifier: bool) -> (r:
    MetricDescriptor)
    ensures
        r@ == descriptor_spec(*metric, prefix@, add_unique_identifier),
{
    let raw_keys = collect_metric_label_keys(metric);
    let ghost normalized = metric_label_keys(*metric).map_values(
        |k: Seq<char>| normalize_label_key_spec(k),
    );
    let mut label_keys: Vec<String> = Vec::new();
    let mut i: usize = 0;
    while i < raw_keys.len()
        invariant
            i <= raw_keys.len(),
            raw_keys.deep_view() == metric_label_keys(*metric),
            normalized == metric_label_keys(*metric).map_values(
                |k: Seq<char>| normalize_label_key_spec(k),
            ),
            label_keys.deep_view() =~= normalized.subrange(0, i as int),
        decreases raw_keys.len() - i,
    {
        let key = normalize_label_key(raw_keys[i].as_str());
        let ghost pre = label_keys@;
        proof {
            assert(label_keys.deep_view().len() == pre.len());
            assert(raw_keys.deep_view()[i as int] == raw_keys@[i as int]@);
        }
        label_keys.push(key);
        proof {
            assert(label_keys.deep_view() =~= normalized.subrange(0, i + 1));
        }
        i = i + 1;
    }
    proof {
        assert(normalized.subrange(0, normalized.len() as int) =~= normalized);
    }
    if add_unique_identifier {
        let ghost pre = label_keys@;
        proof {
            assert(label_keys.deep_view().len() == pre.len());
        }
        label_keys.push(String::from_str(unique_identifier_key()));
        proof {
            assert(label_keys.deep_view() =~= normalized.push(unique_identifier_label_key()));
        }
    }

    let metric_kind = match &metric.data {
        AggregationData::Sum { monotonic, .. } => if *monotonic {
            MetricKind::Cumulative
        } else {
            MetricKind::Gauge
        },
        AggregationData::Gauge { .. } => MetricKind::Gauge,
        AggregationData::Histogram { .. } => MetricKind::Cumulative,
        AggregationData::ExponentialHistogram { .. } => MetricKind::Cumulative,
    };
    let value_type = match &metric.data {
        AggregationData::Histogram { .. } => ValueType::Distribution,
        AggregationData::ExponentialHistogram { .. } => ValueType::Distribution,
        _ => match metric.numeric_kind {
            NumericKind::Double => ValueType::Double,
            NumericKind::Int64 => ValueType::Int64,
            NumericKind::UInt64 => ValueType::Int64,
        },
    };

    MetricDescriptor {
        descriptor_type: descriptor_type_string(prefix, &metric.name),
        display_name: metric.name.clone(),
        description: metric.description.clone(),
        unit: metric.unit.clone(),
        label_keys,
        metric_kind,
        value_type,
    }
}

} // verus!
