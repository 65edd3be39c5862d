//! The wire-level time-series model the exporter produces.
//!
//! These types mirror the shapes of the Cloud Monitoring ingestion API as far
//! as this crate reasons about them. Double-precision fields are carried as
//! IEEE 754 bit patterns or as exact parameters: a distribution's mean is the
//! pair (sum, count) — or zero when the count is zero — and exponential
//! bucket options carry the scale and offset from which the boundary derives
//! the wire growth factor; the distribution's sum of squared deviations is
//! always written as zero and is not represented here. Each exec type has a
//! ghost counterpart reached through its view, which the contracts speak of.

use vstd::prelude::*;

use crate::model::{MetricValue, MonitoredResourceData, clone_strings};

verus! {

/// The interval semantics of a metric: cumulative sums since a fixed start,
/// delta sums since the previous report, or instantaneous samples.
#[derive(Clone, Copy, PartialEq, Eq, Structural, Debug)]
pub enum MetricKind {
    /// An instantaneous sample.
    Gauge,
    /// A sum over the interval since the previous report.
    Delta,
    /// A sum since a fixed start time.
    Cumulative,
}

/// The value type a metric descriptor declares.
#[derive(Clone, Copy, PartialEq, Eq, Structural, Debug)]
pub enum ValueType {
    /// Signed 64-bit integer points.
    Int64,
    /// Double-precision points.
    Double,
    /// Distribution (histogram) points.
    Distribution,
}

/// A point in time: seconds and nanoseconds since the Unix epoch.
#[derive(Clone, Copy, PartialEq, Eq, Structural, Debug)]
pub struct WireTimestamp {
    /// Whole seconds since the Unix epoch.
    pub seconds: i64,
    /// Nanoseconds past the second, in `0..1_000_000_000`.
    pub nanos: i32,
}

/// The largest number of whole seconds a wire timestamp may carry
/// (9999-12-31T23:59:59Z); a later time cannot be submitted.
pub const MAX_TIMESTAMP_SECONDS: u64 = 253402300799;

/// Whether a nanosecond Unix time fits the representable timestamp range.
pub open spec fn valid_unix_nanos(nanos: u128) -> bool {
    nanos / 1_000_000_000 <= MAX_TIMESTAMP_SECONDS as u128
}

/// The timestamp a nanosecond Unix time splits into.
pub open spec fn timestamp_of_unix_nanos_spec(nanos: u128) -> WireTimestamp {
    WireTimestamp {
        seconds: (nanos / 1_000_000_000) as i64,
        nanos: (nanos % 1_000_000_000) as i32,
    }
}

/// Split a nanosecond Unix time into whole seconds and remaining nanoseconds.
pub fn timestamp_of_unix_nanos(nanos: u128) -> (r: WireTimestamp)
    requires
        valid_unix_nanos(nanos),
    ensures
        r == timestamp_of_unix_nanos_spec(nanos),
        0 <= r.seconds <= MAX_TIMESTAMP_SECONDS,
        0 <= r.nanos < 1_000_000_000,
{
    let seconds: i64 = (nanos / 1_000_000_000) as i64;
    let sub_nanos: i32 = (nanos % 1_000_000_000) as i32;
    WireTimestamp { seconds, nanos: sub_nanos }
}

/// The time interval of one point: the start is omitted for instantaneous
/// (gauge) series.
#[derive(Clone, Copy, PartialEq, Eq, Structural, Debug)]
pub struct TimeInterval {
    /// Start of the interval; present only for cumulative or delta series.
    pub start_time: Option<WireTimestamp>,
    /// End of the interval.
    pub end_time: WireTimestamp,
}

/// The mean of a distribution, kept exact: zero when no values were recorded
/// — so no division is ever attempted — and otherwise the pair of the sum
/// and the (positive) count whose floating-point quotient the boundary
/// writes onto the wire.
#[derive(Clone, Copy, PartialEq, Eq, Structural, Debug)]
pub enum DistributionMean {
    /// No recorded values: the wire mean is zero.
    Zero,
    /// The wire mean is `sum / count`, computed at the boundary.
    Ratio {
        /// Sum of the recorded values.
        sum: MetricValue,
        /// Number of recorded values; never zero.
        count: u64,
    },
}

/// The bucket layout of a distribution.
#[derive(Clone, PartialEq, Debug)]
pub enum BucketOptions {
    /// Explicitly enumerated bucket bounds, as IEEE 754 bit patterns.
    Explicit {
        /// The bucket bounds, taken verbatim from the aggregation.
        bounds: Vec<u64>,
    },
    /// Geometrically growing buckets. The wire growth factor is
    /// `2^(2^-scale)` and the wire scale is `growth_factor^offset`, both
    /// derived at the boundary from the parameters carried here.
    Exponential {
        /// Number of finite buckets.
        num_finite_buckets: i32,
        /// Scale of the exponential layout the buckets came from.
        scale: i8,
        /// Index offset of the first positive bucket.
        offset: i32,
    },
}

/// The ghost counterpart of [`BucketOptions`].
pub ghost enum BucketOptionsV {
    /// Explicitly enumerated bucket bounds.
    Explicit { bounds: Seq<u64> },
    /// Geometrically growing buckets.
    Exponential { num_finite_buckets: i32, scale: i8, offset: i32 },
}

impl View for BucketOptions {
    type V = BucketOptionsV;

    open spec fn view(&self) -> BucketOptionsV {
        match self {
            BucketOptions::Explicit { bounds } => BucketOptionsV::Explicit { bounds: bounds@ },
            BucketOptions::Exponential { num_finite_buckets, scale, offset } => {
                BucketOptionsV::Exponential {
                    num_finite_buckets: *num_finite_buckets,
                    scale: *scale,
                    offset: *offset,
                }
            },
        }
    }
}

/// The distribution value of one histogram point.
#[derive(Clone, PartialEq, Debug)]
pub struct WireDistribution {
    /// Number of recorded values.
    pub count: i64,
    /// The mean of the recorded values, kept exact.
    pub mean: DistributionMean,
    /// The bucket layout.
    pub bucket_options: BucketOptions,
    /// Per-bucket counts; one more entry than explicit bounds, or the number
    /// of finite buckets plus two.
    pub bucket_counts: Vec<i64>,
}

/// The ghost counterpart of [`WireDistribution`].
pub ghost struct WireDistributionV {
    /// Number of recorded values.
    pub count: i64,
    /// The mean of the recorded values.
    pub mean: DistributionMean,
    /// The bucket layout.
    pub bucket_options: BucketOptionsV,
    /// Per-bucket counts.
    pub bucket_counts: Seq<i64>,
}

impl View for WireDistribution {
    type V = WireDistributionV;

    open spec fn view(&self) -> WireDistributionV {
        WireDistributionV {
            count: self.count,
            mean: self.mean,
            bucket_options: self.bucket_options@,
            bucket_counts: self.bucket_counts@,
        }
    }
}

/// The typed value of one point.
#[derive(Clone, PartialEq, Debug)]
pub enum TypedValue {
    /// A signed 64-bit integer value.
    Int64(i64),
    /// A double-precision value as its IEEE 754 bit pattern.
    Double(u64),
    /// A distribution value.
    Distribution(WireDistribution),
}

/// The ghost counterpart of [`TypedValue`].
pub ghost enum TypedValueV {
    /// A signed 64-bit integer value.
    Int64(i64),
    /// A double-precision value as its bit pattern.
    Double(u64),
    /// A distribution value.
    Distribution(WireDistributionV),
}

impl View for TypedValue {
    type V = TypedValueV;

    open spec fn view(&self) -> TypedValueV {
        match self {
            TypedValue::Int64(v) => TypedValueV::Int64(*v),
            TypedValue::Double(bits) => TypedValueV::Double(*bits),
            TypedValue::Distribution(d) => TypedValueV::Distribution(d@),
        }
    }
}

/// One point of a time series.
#[derive(Clone, PartialEq, Debug)]
pub struct WirePoint {
    /// The interval the point covers.
    pub interval: TimeInterval,
    /// The point's value.
    pub value: TypedValue,
}

/// The ghost counterpart of [`WirePoint`].
pub ghost struct WirePointV {
    /// The interval the point covers.
    pub interval: TimeInterval,
    /// The point's value.
    pub value: TypedValueV,
}

impl View for WirePoint {
    type V = WirePointV;

    open spec fn view(&self) -> WirePointV {
        WirePointV { interval: self.interval, value: self.value@ }
    }
}

/// The ghost counterpart of [`MonitoredResourceData`].
pub ghost struct MonitoredResourceDataV {
    /// The resource type.
    pub resource_type: Seq<char>,
    /// The resource's label pairs.
    pub labels: Seq<(Seq<char>, Seq<char>)>,
}

impl View for MonitoredResourceData {
    type V = MonitoredResourceDataV;

    open spec fn view(&self) -> MonitoredResourceDataV {
        MonitoredResourceDataV {
            resource_type: self.resource_type@,
            labels: self.labels.deep_view(),
        }
    }
}

impl DeepView for MonitoredResourceData {
    type V = MonitoredResourceDataV;

    open spec fn deep_view(&self) -> MonitoredResourceDataV {
        self.view()
    }
}

/// One wire time-series record: one labeled metric stream carrying exactly
/// one point in this design.
#[derive(Clone, PartialEq, Debug)]
pub struct TimeSeries {
    /// The metric type, `<prefix>/<metric-name>`.
    pub metric_type: String,
    /// The series' label pairs, keys normalized. Pairs whose normalized keys
    /// collide are merged by the map semantics of the wire encoding: the
    /// last pair wins.
    pub labels: Vec<(String, String)>,
    /// The interval semantics of the series.
    pub metric_kind: MetricKind,
    /// The declared value type of the series.
    pub value_type: ValueType,
    /// The monitored resource the series is attributed to, if any.
    pub resource: Option<MonitoredResourceData>,
    /// The single point of the series.
    pub point: WirePoint,
    /// The metric's unit.
    pub unit: String,
}

/// The ghost counterpart of [`TimeSeries`].
pub ghost struct TimeSeriesV {
    /// The metric type.
    pub metric_type: Seq<char>,
    /// The series' label pairs, keys normalized, in order of production.
    pub labels: Seq<(Seq<char>, Seq<char>)>,
    /// The interval semantics of the series.
    pub metric_kind: MetricKind,
    /// The declared value type of the series.
    pub value_type: ValueType,
    /// The monitored resource, if any.
    pub resource: Option<MonitoredResourceDataV>,
    /// The single point of the series.
    pub point: WirePointV,
    /// The metric's unit.
    pub unit: Seq<char>,
}

impl View for TimeSeries {
    type V = TimeSeriesV;

    open spec fn view(&self) -> TimeSeriesV {
        TimeSeriesV {
            metric_type: self.metric_type@,
            labels: self.labels.deep_view(),
            metric_kind: self.metric_kind,
            value_type: self.value_type,
            resource: match self.resource {
                Some(r) => Some(r@),
                None => None,
            },
            point: self.point@,
            unit: self.unit@,
        }
    }
}

impl DeepView for TimeSeries {
    type V = TimeSeriesV;

    open spec fn deep_view(&self) -> TimeSeriesV {
        self.view()
    }
}

/// The map a label pair sequence encodes to on the wire: pairs are inserted
/// in order, so on a key collision the last pair wins.
pub open spec fn label_map_of(pairs: Seq<(Seq<char>, Seq<char>)>) -> Map<Seq<char>, Seq<char>>
    decreases pairs.len(),
{
    if pairs.len() == 0 {
        Map::empty()
    } else {
        label_map_of(pairs.drop_last()).insert(pairs.last().0, pairs.last().1)
    }
}

/// The schema declaration the backend requires before accepting time series
/// of a given type. Descriptor identity is solely the `descriptor_type`
/// string; every label's value type is String in this design.
#[derive(PartialEq, Debug)]
pub struct MetricDescriptor {
    /// The metric type, `<prefix>/<metric-name>`; the descriptor's identity.
    pub descriptor_type: String,
    /// The display name: the metric's own name.
    pub display_name: String,
    /// The metric's description.
    pub description: String,
    /// The metric's unit.
    pub unit: String,
    /// The declared label keys, normalized.
    pub label_keys: Vec<String>,
    /// The interval semantics of the metric.
    pub metric_kind: MetricKind,
    /// The declared value type.
    pub value_type: ValueType,
}

/// The ghost counterpart of [`MetricDescriptor`].
pub ghost struct MetricDescriptorV {
    /// The metric type; the descriptor's identity.
    pub descriptor_type: Seq<char>,
    /// The display name.
    pub display_name: Seq<char>,
    /// The metric's description.
    pub description: Seq<char>,
    /// The metric's unit.
    pub unit: Seq<char>,
    /// The declared label keys, normalized.
    pub label_keys: Seq<Seq<char>>,
    /// The interval semantics of the metric.
    pub metric_kind: MetricKind,
    /// The declared value type.
    pub value_type: ValueType,
}

impl View for MetricDescriptor {
    type V = MetricDescriptorV;

    open spec fn view(&self) -> MetricDescriptorV {
        MetricDescriptorV {
            descriptor_type: self.descriptor_type@,
            display_name: self.display_name@,
            description: self.description@,
            unit: self.unit@,
            label_keys: self.label_keys.deep_view(),
            metric_kind: self.metric_kind,
            value_type: self.value_type,
        }
    }
}

impl DeepView for MetricDescriptor {
    type V = MetricDescriptorV;

    open spec fn deep_view(&self) -> MetricDescriptorV {
        self.view()
    }
}

impl Clone for MetricDescriptor {
    /// The copy carries the same fields, so its view is the same.
    fn clone(&self) -> (r: Self)
        ensures
            r@ == self@,
    {
        let r = MetricDescriptor {
            descriptor_type: self.descriptor_type.clone(),
            display_name: self.display_name.clone(),
            description: self.description.clone(),
            unit: self.unit.clone(),
            label_keys: clone_strings(&self.label_keys),
            metric_kind: self.metric_kind,
            value_type: self.value_type,
        };
        proof {
            assert(r.label_keys.deep_view() =~= self.label_keys.deep_view());
            assert(r@ == self@);
        }
        r
    }
}

} // verus!
