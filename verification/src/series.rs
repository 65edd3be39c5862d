//! Shared building blocks of the point converters: label construction, the
//! synthetic uniqueness label, interval construction and scalar wire values.

use vstd::prelude::*;

use crate::labels::{normalize_label_key, normalize_label_key_spec};
use crate::model::{MetricValue, MonitoredResourceData, clone_string_pairs};
use crate::wire::{
    MetricKind, TimeInterval, TypedValue, TypedValueV, WireTimestamp, label_map_of,
    timestamp_of_unix_nanos, timestamp_of_unix_nanos_spec, valid_unix_nanos,
};

verus! {

/// The key of the synthetic label that distinguishes concurrent exporter
/// processes writing the same metric name.
pub open spec fn unique_identifier_label_key() -> Seq<char> {
    "opentelemetry_id"@
}

/// The key of the synthetic uniqueness label, as a string slice.
pub fn unique_identifier_key() -> (r: &'static str)
    ensures
        r@ == unique_identifier_label_key(),
{
    "opentelemetry_id"
}

/// The label pairs a data point's attribute set produces: every key is
/// normalized, values pass through unchanged, and when the uniqueness flag is
/// set one synthetic pair is appended. Pairs whose normalized keys collide
/// are merged by the wire encoding's map semantics, last pair winning.
pub open spec fn labels_spec(
    attributes: Seq<(Seq<char>, Seq<char>)>,
    add_unique_identifier: bool,
    unique_identifier: Seq<char>,
) -> Seq<(Seq<char>, Seq<char>)> {
    let mapped = attributes.map_values(
        |p: (Seq<char>, Seq<char>)| (normalize_label_key_spec(p.0), p.1),
    );
    if add_unique_identifier {
        mapped.push((unique_identifier_label_key(), unique_identifier))
    } else {
        mapped
    }
}

/// Build the label pairs of one time series from a data point's attributes.
pub fn build_labels(
    attributes: &Vec<(String, String)>,
    add_unique_identifier: bool,
    unique_identifier: &String,
) -> (r: Vec<(String, String)>)
    ensures
        r.deep_view() == labels_spec(
            attributes.deep_view(),
            add_unique_identifier,
            unique_identifier@,
        ),
{
    let ghost mapped = attributes.deep_view().map_values(
        |p: (Seq<char>, Seq<char>)| (normalize_label_key_spec(p.0), p.1),
    );
    let mut r: Vec<(String, String)> = Vec::new();
    let mut i: usize = 0;
    while i < attributes.len()
        invariant
            i <= attributes.len(),
            mapped == attributes.deep_view().map_values(
                |p: (Seq<char>, Seq<char>)| (normalize_label_key_spec(p.0), p.1),
            ),
            r.deep_view() =~= mapped.subrange(0, i as int),
        decreases attributes.len() - i,
    {
        let key = normalize_label_key(attributes[i].0.as_str());
        let value = attributes[i].1.clone();
        let ghost pre = r@;
        proof {
            assert(r.deep_view().len() == pre.len());
            assert(pre.len() == i as int);
        }
        r.push((key, value));
        proof {
            let dv = attributes.deep_view();
            assert(dv[i as int] == (attributes@[i as int].0@, attributes@[i as int].1@));
            let entry = dv[i as int];
            assert(mapped[i as int] == (normalize_label_key_spec(entry.0), entry.1));
            assert(r@.len() == i + 1);
            assert(r@[i as int] == (key, value));
            assert(r@[i as int].deep_view() == (key@, value@));
            assert(r.deep_view()[i as int] == (key@, value@));
            assert(r.deep_view() =~= mapped.subrange(0, i + 1 as int));
        }
        i = i + 1;
    }
    proof {
        assert(mapped.subrange(0, attributes.deep_view().len() as int) =~= mapped);
    }
    if add_unique_identifier {
        let key = String::from_str(unique_identifier_key());
        r.push((key, unique_identifier.clone()));
        proof {
            assert(r.deep_view() =~= mapped.push(
                (unique_identifier_label_key(), unique_identifier@),
            ));
        }
    }
    r
}

/// Under the wire encoding's map semantics the synthetic uniqueness label is
/// always present and carries the exporter's identifier: appended last, it
/// wins over any attribute whose normalized key collides with it.
pub proof fn lemma_unique_identifier_label_wins(
    attributes: Seq<(Seq<char>, Seq<char>)>,
    unique_identifier: Seq<char>,
)
    ensures
        label_map_of(labels_spec(attributes, true, unique_identifier)).contains_key(
            unique_identifier_label_key(),
        ),
        label_map_of(labels_spec(attributes, true, unique_identifier))[
            unique_identifier_label_key()] == unique_identifier,
{
    let mapped = attributes.map_values(
        |p: (Seq<char>, Seq<char>)| (normalize_label_key_spec(p.0), p.1),
    );
    let pushed = mapped.push((unique_identifier_label_key(), unique_identifier));
    assert(pushed.drop_last() =~= mapped);
    assert(label_map_of(pushed) == label_map_of(mapped).insert(
        unique_identifier_label_key(),
        unique_identifier,
    ));
}

/// Whether a series of this metric kind carries a start time: only genuinely
/// cumulative series do; instantaneous gauge points omit it.
pub open spec fn kind_has_start_time(kind: MetricKind) -> bool {
    kind == MetricKind::Cumulative || kind == MetricKind::Delta
}

/// The interval of one scalar point: the end time is always present; the
/// start time is present only when the descriptor's metric kind is cumulative
/// or delta and a start time was supplied.
pub open spec fn scalar_interval_spec(
    kind: MetricKind,
    start_time_unix_nanos: Option<u128>,
    time_unix_nanos: u128,
) -> TimeInterval {
    TimeInterval {
        start_time: if kind_has_start_time(kind) && start_time_unix_nanos is Some {
            Some(timestamp_of_unix_nanos_spec(start_time_unix_nanos->0))
        } else {
            None
        },
        end_time: timestamp_of_unix_nanos_spec(time_unix_nanos),
    }
}

/// Build the interval of one scalar point.
pub fn build_scalar_interval(
    kind: MetricKind,
    start_time_unix_nanos: Option<u128>,
    time_unix_nanos: u128,
) -> (r: TimeInterval)
    requires
        start_time_unix_nanos is Some ==> valid_unix_nanos(start_time_unix_nanos->0),
        valid_unix_nanos(time_unix_nanos),
    ensures
        r == scalar_interval_spec(kind, start_time_unix_nanos, time_unix_nanos),
{
    let cumulative = match kind {
        MetricKind::Cumulative => true,
        MetricKind::Delta => true,
        MetricKind::Gauge => false,
    };
    let start_time: Option<WireTimestamp> = if cumulative {
        match start_time_unix_nanos {
            Some(nanos) => Some(timestamp_of_unix_nanos(nanos)),
            None => None,
        }
    } else {
        None
    };
    TimeInterval { start_time, end_time: timestamp_of_unix_nanos(time_unix_nanos) }
}

/// The wire value of one scalar point: a double value keeps its bit pattern,
/// a signed value keeps its value, and an unsigned value is cast to the
/// signed wire field — values above the signed maximum wrap, a documented
/// limitation of this design.
pub open spec fn scalar_typed_value_spec(value: MetricValue) -> TypedValueV {
    match value {
        MetricValue::Double(bits) => TypedValueV::Double(bits),
        MetricValue::Int64(v) => TypedValueV::Int64(v),
        MetricValue::UInt64(v) => TypedValueV::Int64(v as i64),
    }
}

/// Build the wire value of one scalar point.
pub fn build_scalar_typed_value(value: MetricValue) -> (r: TypedValue)
    ensures
        r@ == scalar_typed_value_spec(value),
{
    match value {
        MetricValue::Double(bits) => TypedValue::Double(bits),
        MetricValue::Int64(v) => TypedValue::Int64(v),
        MetricValue::UInt64(v) => TypedValue::Int64(
            #[verifier::truncate] (v as i64),
        ),
    }
}

/// Copy an optional monitored resource, preserving its view.
pub fn clone_resource(r: &Option<MonitoredResourceData>) -> (c: Option<MonitoredResourceData>)
    ensures
        c.deep_view() == r.deep_view(),
{
    match r {
        Some(data) => {
            let copied = MonitoredResourceData {
                resource_type: data.resource_type.clone(),
                labels: clone_string_pairs(&data.labels),
            };
            proof {
                assert(copied@ == data@);
            }
            Some(copied)
        },
        None => None,
    }
}

} // verus!
