//! The in-memory metric model the exporter consumes.
//!
//! A snapshot is a read-only collection of named metrics; each metric carries
//! a unit, a description, a numeric kind and one aggregation payload (sum,
//! gauge, histogram or exponential histogram). Attribute sets arrive as pairs
//! of plain strings: attribute values are serialized to their string
//! representation before they reach this crate, a deliberately lossy but
//! consistent policy. Double-precision values are carried as their 64-bit
//! IEEE 754 bit patterns and are never interpreted here; timestamps are
//! carried as nanoseconds since the Unix epoch.

use vstd::prelude::*;

verus! {

/// The numeric kind a metric's data points share.
#[derive(Clone, Copy, PartialEq, Eq, Structural, Debug)]
pub enum NumericKind {
    /// Double-precision values, carried as IEEE 754 bit patterns.
    Double,
    /// Signed 64-bit integer values.
    Int64,
    /// Unsigned 64-bit integer values.
    UInt64,
}

/// One numeric value of a data point. The `Double` variant holds the value's
/// IEEE 754 bit pattern; this crate never interprets it.
#[derive(Clone, Copy, PartialEq, Eq, Structural, Debug)]
pub enum MetricValue {
    /// A double-precision value as its bit pattern.
    Double(u64),
    /// A signed 64-bit integer value.
    Int64(i64),
    /// An unsigned 64-bit integer value.
    UInt64(u64),
}

impl MetricValue {
    /// Whether this value is of the given numeric kind.
    pub open spec fn matches_kind(self, kind: NumericKind) -> bool {
        match (self, kind) {
            (MetricValue::Double(_), NumericKind::Double) => true,
            (MetricValue::Int64(_), NumericKind::Int64) => true,
            (MetricValue::UInt64(_), NumericKind::UInt64) => true,
            _ => false,
        }
    }
}

/// One sum or gauge data point: an attribute set and a numeric value.
#[derive(PartialEq, Debug)]
pub struct ScalarPoint {
    /// Attribute pairs; values are already serialized to strings.
    pub attributes: Vec<(String, String)>,
    /// The recorded value.
    pub value: MetricValue,
}

/// One explicit-bounds histogram data point.
#[derive(PartialEq, Debug)]
pub struct HistogramPoint {
    /// Attribute pairs; values are already serialized to strings.
    pub attributes: Vec<(String, String)>,
    /// Number of recorded values.
    pub count: u64,
    /// Sum of the recorded values.
    pub sum: MetricValue,
    /// Explicit bucket bounds, as IEEE 754 bit patterns, taken verbatim.
    pub bounds: Vec<u64>,
    /// Per-bucket counts; one more entry than `bounds`.
    pub bucket_counts: Vec<u64>,
}

/// The positive or negative bucket range of an exponential histogram point.
#[derive(PartialEq, Debug)]
pub struct ExponentialBuckets {
    /// Index offset of the first bucket.
    pub offset: i32,
    /// Per-bucket counts.
    pub counts: Vec<u64>,
}

/// One exponential histogram data point.
#[derive(PartialEq, Debug)]
pub struct ExponentialHistogramPoint {
    /// Attribute pairs; values are already serialized to strings.
    pub attributes: Vec<(String, String)>,
    /// Number of recorded values.
    pub count: u64,
    /// Sum of the recorded values.
    pub sum: MetricValue,
    /// Number of recorded values that were exactly zero.
    pub zero_count: u64,
    /// Scale of the exponential bucket layout.
    pub scale: i8,
    /// Buckets for positive values.
    pub positive: ExponentialBuckets,
    /// Buckets for negative values.
    pub negative: ExponentialBuckets,
}

/// The aggregation payload of one metric.
#[derive(PartialEq, Debug)]
pub enum AggregationData {
    /// A sum: cumulative when monotonic, instantaneous otherwise.
    Sum {
        /// Whether the sum is monotonic (a counter).
        monotonic: bool,
        /// Start of the aggregated interval, nanoseconds since the Unix epoch.
        start_time_unix_nanos: u128,
        /// End of the aggregated interval, nanoseconds since the Unix epoch.
        time_unix_nanos: u128,
        /// The data points.
        points: Vec<ScalarPoint>,
    },
    /// A gauge: instantaneous samples.
    Gauge {
        /// Optional start time, nanoseconds since the Unix epoch.
        start_time_unix_nanos: Option<u128>,
        /// Sample time, nanoseconds since the Unix epoch.
        time_unix_nanos: u128,
        /// The data points.
        points: Vec<ScalarPoint>,
    },
    /// An explicit-bounds histogram; always cumulative in this design.
    Histogram {
        /// Start of the aggregated interval, nanoseconds since the Unix epoch.
        start_time_unix_nanos: u128,
        /// End of the aggregated interval, nanoseconds since the Unix epoch.
        time_unix_nanos: u128,
        /// The data points.
        points: Vec<HistogramPoint>,
    },
    /// An exponential histogram; always cumulative in this design.
    ExponentialHistogram {
        /// Start of the aggregated interval, nanoseconds since the Unix epoch.
        start_time_unix_nanos: u128,
        /// End of the aggregated interval, nanoseconds since the Unix epoch.
        time_unix_nanos: u128,
        /// The data points.
        points: Vec<ExponentialHistogramPoint>,
    },
}

/// One named metric of a snapshot.
#[derive(PartialEq, Debug)]
pub struct Metric {
    /// The metric's name.
    pub name: String,
    /// The metric's unit.
    pub unit: String,
    /// The metric's description.
    pub description: String,
    /// The numeric kind every data point of this metric carries.
    pub numeric_kind: NumericKind,
    /// The aggregation payload.
    pub data: AggregationData,
}

/// A monitored resource: the entity a metric is attributed to, distinct from
/// the metric's own labels. Either supplied by static configuration or
/// derived by an external resource detector.
#[derive(PartialEq, Debug)]
pub struct MonitoredResourceData {
    /// The resource type, such as `generic_node`.
    pub resource_type: String,
    /// The resource's label pairs.
    pub labels: Vec<(String, String)>,
}

/// Copy a vector of string pairs, preserving its contents exactly.
pub fn clone_string_pairs(v: &Vec<(String, String)>) -> (r: Vec<(String, String)>)
    ensures
        r@ == v@,
{
    let mut r: Vec<(String, String)> = Vec::new();
    let mut i: usize = 0;
    while i < v.len()
        invariant
            i <= v.len(),
            r@ == v@.subrange(0, i as int),
        decreases v.len() - i,
    {
        let pair = (v[i].0.clone(), v[i].1.clone());
        proof {
            assert(pair == v@[i as int]);
        }
        r.push(pair);
        proof {
            assert(v@.subrange(0, i + 1 as int) =~= v@.subrange(0, i as int).push(
                v@[i as int],
            ));
        }
        i = i + 1;
    }
    proof {
        assert(v@.subrange(0, v@.len() as int) =~= v@);
    }
    r
}

/// Copy a vector of strings, preserving its contents exactly.
pub fn clone_strings(v: &Vec<String>) -> (r: Vec<String>)
    ensures
        r@ == v@,
{
    let mut r: Vec<String> = Vec::new();
    let mut i: usize = 0;
    while i < v.len()
        invariant
            i <= v.len(),
            r@ == v@.subrange(0, i as int),
        decreases v.len() - i,
    {
        r.push(v[i].clone());
        proof {
            assert(v@.subrange(0, i + 1 as int) =~= v@.subrange(0, i as int).push(
                v@[i as int],
            ));
        }
        i = i + 1;
    }
    proof {
        assert(v@.subrange(0, v@.len() as int) =~= v@);
    }
    r
}

impl Clone for MonitoredResourceData {
    /// The copy carries the same resource type and the same label pairs.
    fn clone(&self) -> (r: Self)
        ensures
            r.resource_type == self.resource_type,
            r.labels@ == self.labels@,
    {
        MonitoredResourceData {
            resource_type: self.resource_type.clone(),
            labels: clone_string_pairs(&self.labels),
        }
    }
}

} // verus!
