//! Conversion of histogram and exponential-histogram data points into wire
//! time series carrying distribution values.
//!
//! Explicit histograms keep their bounds verbatim. An exponential histogram
//! is reconstructed approximately: the zero count and every negative-range
//! bucket fold into one underflow bucket, the trailing overflow bucket is
//! always zero, and a point without positive buckets falls back to explicit
//! bounds `[0.0]` because exponential bucket options require at least one
//! finite bucket.

use vstd::prelude::*;

use crate::model::{ExponentialHistogramPoint, HistogramPoint, MetricValue, MonitoredResourceData};
use crate::series::{build_labels, clone_resource, labels_spec};
use crate::wire::{
    BucketOptions, BucketOptionsV, DistributionMean, MetricDescriptor, MetricDescriptorV,
    MonitoredResourceDataV, TimeInterval, TimeSeries, TimeSeriesV, TypedValue, TypedValueV,
    WireDistribution, WireDistributionV, WirePoint, WirePointV, timestamp_of_unix_nanos,
    timestamp_of_unix_nanos_spec, valid_unix_nanos,
};

verus! {

/// The mean of a distribution with the given count and sum: zero when the
/// count is zero — so no division is ever attempted — and the exact pair
/// otherwise.
pub open spec fn distribution_mean_spec(count: u64, sum: MetricValue) -> DistributionMean {
    if count == 0 {
        DistributionMean::Zero
    } else {
        DistributionMean::Ratio { sum, count }
    }
}

/// Build the mean of a distribution.
pub fn build_distribution_mean(count: u64, sum: MetricValue) -> (r: DistributionMean)
    ensures
        r == distribution_mean_spec(count, sum),
{
    if count == 0 {
        DistributionMean::Zero
    } else {
        DistributionMean::Ratio { sum, count }
    }
}

/// The interval of a histogram point: explicit histograms are cumulative in
/// this design, so the start time is always set.
pub open spec fn histogram_interval_spec(
    start_time_unix_nanos: u128,
    time_unix_nanos: u128,
) -> TimeInterval {
    TimeInterval {
        start_time: Some(timestamp_of_unix_nanos_spec(start_time_unix_nanos)),
        end_time: timestamp_of_unix_nanos_spec(time_unix_nanos),
    }
}

/// The sum of a sequence of unsigned bucket counts.
pub open spec fn sum_of_counts(s: Seq<u64>) -> int
    decreases s.len(),
{
    if s.len() == 0 {
        0
    } else {
        sum_of_counts(s.drop_last()) + s.last()
    }
}

/// Every prefix of a count sequence sums to no more than the whole.
proof fn lemma_sum_of_counts_prefix(s: Seq<u64>, i: int)
    requires
        0 <= i <= s.len(),
    ensures
        sum_of_counts(s.subrange(0, i)) <= sum_of_counts(s),
        sum_of_counts(s.subrange(0, i)) >= 0,
    decreases s.len() - i,
{
    if i == s.len() {
        assert(s.subrange(0, i) =~= s);
        lemma_sum_of_counts_nonneg(s);
    } else {
        lemma_sum_of_counts_prefix(s, i + 1);
        lemma_sum_of_counts_nonneg(s.subrange(0, i));
        assert(s.subrange(0, i + 1).drop_last() =~= s.subrange(0, i));
        assert(s.subrange(0, i + 1).last() == s[i]);
        assert(sum_of_counts(s.subrange(0, i + 1)) == sum_of_counts(s.subrange(0, i))
            + s.subrange(0, i + 1).last());
    }
}

/// A sum of unsigned counts is never negative.
proof fn lemma_sum_of_counts_nonneg(s: Seq<u64>)
    ensures
        sum_of_counts(s) >= 0,
    decreases s.len(),
{
    if s.len() > 0 {
        lemma_sum_of_counts_nonneg(s.drop_last());
    }
}

/// Sum a vector of bucket counts.
fn sum_counts(v: &Vec<u64>) -> (r: u64)
    requires
        sum_of_counts(v@) <= u64::MAX,
    ensures
        r == sum_of_counts(v@),
{
    let mut r: u64 = 0;
    let mut i: usize = 0;
    while i < v.len()
        invariant
            i <= v.len(),
            sum_of_counts(v@) <= u64::MAX,
            r == sum_of_counts(v@.subrange(0, i as int)),
        decreases v.len() - i,
    {
        proof {
            lemma_sum_of_counts_prefix(v@, i + 1);
            assert(v@.subrange(0, i + 1).drop_last() =~= v@.subrange(0, i as int));
            assert(sum_of_counts(v@.subrange(0, i + 1)) == sum_of_counts(
                v@.subrange(0, i as int),
            ) + v@[i as int]);
        }
        r = r + v[i];
        i = i + 1;
    }
    proof {
        assert(v@.subrange(0, v@.len() as int) =~= v@);
    }
    r
}

/// Copy a vector of bucket bounds, preserving its contents exactly.
fn clone_bounds(v: &Vec<u64>) -> (r: Vec<u64>)
    ensures
        r@ == v@,
{
    let mut r: Vec<u64> = Vec::new();
    let mut i: usize = 0;
    while i < v.len()
        invariant
            i <= v.len(),
            r@ =~= v@.subrange(0, i as int),
        decreases v.len() - i,
    {
        r.push(v[i]);
        proof {
            assert(r@ =~= v@.subrange(0, i + 1 as int));
        }
        i = i + 1;
    }
    proof {
        assert(v@.subrange(0, v@.len() as int) =~= v@);
    }
    r
}

/// The per-bucket counts of a distribution, cast to the signed wire type.
pub open spec fn signed_counts_spec(counts: Seq<u64>) -> Seq<i64> {
    counts.map_values(|c: u64| c as i64)
}

/// Cast bucket counts to the signed wire type; counts above the signed
/// maximum wrap, as the wire cast of the source aggregation does.
fn build_signed_counts(counts: &Vec<u64>) -> (r: Vec<i64>)
    ensures
        r@ == signed_counts_spec(counts@),
{
    let mut r: Vec<i64> = Vec::new();
    let mut i: usize = 0;
    while i < counts.len()
        invariant
            i <= counts.len(),
            r@ =~= signed_counts_spec(counts@).subrange(0, i as int),
        decreases counts.len() - i,
    {
        r.push(#[verifier::truncate] (counts[i] as i64));
        proof {
            assert(r@ =~= signed_counts_spec(counts@).subrange(0, i + 1 as int));
        }
        i = i + 1;
    }
    proof {
        assert(signed_counts_spec(counts@).subrange(0, counts@.len() as int) =~= signed_counts_spec(
            counts@,
        ));
    }
    r
}

/// The distribution one explicit-bounds histogram point produces: the exact
/// count, the zero-guarded mean, the bounds verbatim, and the bucket counts
/// cast to the signed wire type. The sum of squared deviations is not
/// computed and is written as zero at the boundary.
pub open spec fn histogram_distribution_spec(point: HistogramPoint) -> WireDistributionV {
    WireDistributionV {
        count: point.count as i64,
        mean: distribution_mean_spec(point.count, point.sum),
        bucket_options: BucketOptionsV::Explicit { bounds: point.bounds@ },
        bucket_counts: signed_counts_spec(point.bucket_counts@),
    }
}

/// The time series one explicit-bounds histogram point produces.
pub open spec fn histogram_time_series_spec(
    point: HistogramPoint,
    start_time_unix_nanos: u128,
    time_unix_nanos: u128,
    descriptor: MetricDescriptorV,
    resource: Option<MonitoredResourceDataV>,
    add_unique_identifier: bool,
    unique_identifier: Seq<char>,
) -> TimeSeriesV {
    TimeSeriesV {
        metric_type: descriptor.descriptor_type,
        labels: labels_spec(
            point.attributes.deep_view(),
            add_unique_identifier,
            unique_identifier,
        ),
        metric_kind: descriptor.metric_kind,
        value_type: descriptor.value_type,
        resource: resource,
        point: WirePointV {
            interval: histogram_interval_spec(start_time_unix_nanos, time_unix_nanos),
            value: TypedValueV::Distribution(histogram_distribution_spec(point)),
        },
        unit: descriptor.unit,
    }
}

/// Convert one explicit-bounds histogram data point into one time series.
///
/// The produced distribution's count is the point's count; when that count
/// is zero its mean is zero, so no division by zero can arise.
pub fn convert(
    point: &HistogramPoint,
    start_time_unix_nanos: u128,
    time_unix_nanos: u128,
    descriptor: &MetricDescriptor,
    resource: &Option<MonitoredResourceData>,
    add_unique_identifier: bool,
    unique_identifier: &String,
) -> (r: TimeSeries)
    requires
        valid_unix_nanos(start_time_unix_nanos),
        valid_unix_nanos(time_unix_nanos),
    ensures
        r@ == histogram_time_series_spec(
            *point,
            start_time_unix_nanos,
            time_unix_nanos,
            descriptor@,
            resource.deep_view(),
            add_unique_identifier,
            unique_identifier@,
        ),
        point.count == 0 ==> r@.point.value == TypedValueV::Distribution(
            histogram_distribution_spec(*point),
        ) && histogram_distribution_spec(*point).mean == DistributionMean::Zero,
{
    let labels = build_labels(&point.attributes, add_unique_identifier, unique_identifier);
    let interval = TimeInterval {
        start_time: Some(timestamp_of_unix_nanos(start_time_unix_nanos)),
        end_time: timestamp_of_unix_nanos(time_unix_nanos),
    };
    let distribution = WireDistribution {
        count: #[verifier::truncate] (point.count as i64),
        mean: build_distribution_mean(point.count, point.sum),
        bucket_options: BucketOptions::Explicit { bounds: clone_bounds(&point.bounds) },
        bucket_counts: build_signed_counts(&point.bucket_counts),
    };
    TimeSeries {
        metric_type: descriptor.descriptor_type.clone(),
        labels,
        metric_kind: descriptor.metric_kind,
        value_type: descriptor.value_type,
        resource: clone_resource(resource),
        point: WirePoint { interval, value: TypedValue::Distribution(distribution) },
        unit: descriptor.unit.clone(),
    }
}

/// The bucket counts an exponential histogram point produces: the underflow
/// bucket (zero count plus every negative-range count), the positive-range
/// counts, and an always-empty overflow bucket.
pub open spec fn exponential_bucket_counts_spec(point: ExponentialHistogramPoint) -> Seq<i64> {
    seq![(point.zero_count + sum_of_counts(point.negative.counts@)) as i64]
        + signed_counts_spec(point.positive.counts@) + seq![0i64]
}

/// The bucket options an exponential histogram point produces: explicit
/// bounds `[0.0]` when there are no positive buckets — exponential options
/// require at least one finite bucket — and otherwise the exponential layout
/// whose growth factor and scale the boundary derives from the carried scale
/// and offset. The bit pattern of the double value `0.0` is zero.
pub open spec fn exponential_bucket_options_spec(
    point: ExponentialHistogramPoint,
) -> BucketOptionsV {
    if point.positive.counts@.len() == 0 {
        BucketOptionsV::Explicit { bounds: seq![0u64] }
    } else {
        BucketOptionsV::Exponential {
            num_finite_buckets: point.positive.counts@.len() as i32,
            scale: point.scale,
            offset: point.positive.offset,
        }
    }
}

/// The distribution one exponential histogram point produces.
pub open spec fn exponential_distribution_spec(
    point: ExponentialHistogramPoint,
) -> WireDistributionV {
    WireDistributionV {
        count: point.count as i64,
        mean: distribution_mean_spec(point.count, point.sum),
        bucket_options: exponential_bucket_options_spec(point),
        bucket_counts: exponential_bucket_counts_spec(point),
    }
}

/// The time series one exponential histogram point produces.
pub open spec fn exponential_time_series_spec(
    point: ExponentialHistogramPoint,
    start_time_unix_nanos: u128,
    time_unix_nanos: u128,
    descriptor: MetricDescriptorV,
    resource: Option<MonitoredResourceDataV>,
    add_unique_identifier: bool,
    unique_identifier: Seq<char>,
) -> TimeSeriesV {
    TimeSeriesV {
        metric_type: descriptor.descriptor_type,
        labels: labels_spec(
            point.attributes.deep_view(),
            add_unique_identifier,
            unique_identifier,
        ),
        metric_kind: descriptor.metric_kind,
        value_type: descriptor.value_type,
        resource: resource,
        point: WirePointV {
            interval: histogram_interval_spec(start_time_unix_nanos, time_unix_nanos),
            value: TypedValueV::Distribution(exponential_distribution_spec(point)),
        },
        unit: descriptor.unit,
    }
}

/// Convert one exponential histogram data point into one time series.
///
/// Negative-range values fold into the underflow bucket, the overflow bucket
/// is always zero, and a point without positive buckets falls back to
/// explicit bucket options with bounds `[0.0]` and exactly two bucket
/// counts.
pub fn convert_exponential(
    point: &ExponentialHistogramPoint,
    start_time_unix_nanos: u128,
    time_unix_nanos: u128,
    descriptor: &MetricDescriptor,
    resource: &Option<MonitoredResourceData>,
    add_unique_identifier: bool,
    unique_identifier: &String,
) -> (r: TimeSeries)
    requires
        valid_unix_nanos(start_time_unix_nanos),
        valid_unix_nanos(time_unix_nanos),
        point.zero_count + sum_of_counts(point.negative.counts@) <= u64::MAX,
        point.positive.counts@.len() <= i32::MAX,
    ensures
        r@ == exponential_time_series_spec(
            *point,
            start_time_unix_nanos,
            time_unix_nanos,
            descriptor@,
            resource.deep_view(),
            add_unique_identifier,
            unique_identifier@,
        ),
        point.count == 0 ==> exponential_distribution_spec(*point).mean
            == DistributionMean::Zero,
        point.positive.counts@.len() == 0 ==> exponential_bucket_options_spec(*point)
            == (BucketOptionsV::Explicit { bounds: seq![0u64] })
            && exponential_bucket_counts_spec(*point).len() == 2,
{
    let labels = build_labels(&point.attributes, add_unique_identifier, unique_identifier);
    let interval = TimeInterval {
        start_time: Some(timestamp_of_unix_nanos(start_time_unix_nanos)),
        end_time: timestamp_of_unix_nanos(time_unix_nanos),
    };
    proof {
        lemma_sum_of_counts_nonneg(point.negative.counts@);
    }
    let underflow: u64 = point.zero_count + sum_counts(&point.negative.counts);

    let mut bucket_counts: Vec<i64> = Vec::new();
    bucket_counts.push(#[verifier::truncate] (underflow as i64));
    let mut positive_signed = build_signed_counts(&point.positive.counts);
    bucket_counts.append(&mut positive_signed);
    bucket_counts.push(0i64);
    proof {
        assert(bucket_counts@ =~= exponential_bucket_counts_spec(*point));
    }

    let bucket_options = if point.positive.counts.len() == 0 {
        let mut bounds: Vec<u64> = Vec::new();
        bounds.push(0u64);
        proof {
            assert(bounds@ =~= seq![0u64]);
        }
        BucketOptions::Explicit { bounds }
    } else {
        BucketOptions::Exponential {
            num_finite_buckets: point.positive.counts.len() as i32,
            scale: point.scale,
            offset: point.positive.offset,
        }
    };

    let distribution = WireDistribution {
        count: #[verifier::truncate] (point.count as i64),
        mean: build_distribution_mean(point.count, point.sum),
        bucket_options,
        bucket_counts,
    };
    TimeSeries {
        metric_type: descriptor.descriptor_type.clone(),
        labels,
        metric_kind: descriptor.metric_kind,
        value_type: descriptor.value_type,
        resource: clone_resource(resource),
        point: WirePoint { interval, value: TypedValue::Distribution(distribution) },
        unit: descriptor.unit.clone(),
    }
}

} // verus!
