//! Tests of the point converters: interval rules, value encoding, histogram
//! distributions and the exponential reconstruction.

use gcp_metrics_exporter::model::{
    ExponentialBuckets, ExponentialHistogramPoint, HistogramPoint, MetricValue,
    MonitoredResourceData, ScalarPoint,
};
use gcp_metrics_exporter::data_point_to_time_series::{
    convert_scalar_point, gauge_convert_i64, sum_convert_f64, sum_convert_i64,
};
use gcp_metrics_exporter::histogram_data_point_to_time_series::{convert, convert_exponential};
use gcp_metrics_exporter::wire::{
    BucketOptions, DistributionMean, MetricDescriptor, MetricKind, TimeSeries, TypedValue,
    ValueType, WireDistribution, timestamp_of_unix_nanos,
};

fn pairs(items: &[(&str, &str)]) -> Vec<(String, String)> {
    items.iter().map(|(k, v)| (k.to_string(), v.to_string())).collect()
}

fn descriptor(kind: MetricKind, value_type: ValueType) -> MetricDescriptor {
    MetricDescriptor {
        descriptor_type: "workload.googleapis.com/mycounter".to_string(),
        display_name: "mycounter".to_string(),
        description: "foo".to_string(),
        unit: "myunit".to_string(),
        label_keys: vec!["string".to_string(), "int".to_string(), "float".to_string()],
        metric_kind: kind,
        value_type,
    }
}

fn distribution_of(series: &TimeSeries) -> &WireDistribution {
    match &series.point.value {
        TypedValue::Distribution(d) => d,
        other => panic!("expected a distribution value, got {:?}", other),
    }
}

const START: u128 = 1_723_249_032_929_246_000;
const END: u128 = 1_723_249_032_972_447_000;

#[test]
fn test_timestamp_of_unix_nanos_splits_seconds_and_nanos() {
    let ts = timestamp_of_unix_nanos(START);
    assert_eq!(ts.seconds, 1_723_249_032);
    assert_eq!(ts.nanos, 929_246_000);
    let zero = timestamp_of_unix_nanos(0);
    assert_eq!(zero.seconds, 0);
    assert_eq!(zero.nanos, 0);
}

#[test]
fn test_counter_int() {
    let point = ScalarPoint {
        attributes: pairs(&[("string", "string"), ("int", "123"), ("float", "123.4")]),
        value: MetricValue::Int64(45),
    };
    let series = sum_convert_i64(
        &point,
        START,
        END,
        &descriptor(MetricKind::Cumulative, ValueType::Int64),
        &None,
        false,
        &String::new(),
    );
    assert_eq!(series.metric_type, "workload.googleapis.com/mycounter");
    assert_eq!(series.metric_kind, MetricKind::Cumulative);
    assert_eq!(series.value_type, ValueType::Int64);
    assert_eq!(series.unit, "myunit");
    assert!(series.point.interval.start_time.is_some());
    assert_eq!(series.point.interval.end_time, timestamp_of_unix_nanos(END));
    assert_eq!(series.point.value, TypedValue::Int64(45));
    assert_eq!(
        series.labels,
        pairs(&[("string", "string"), ("int", "123"), ("float", "123.4")])
    );
}

#[test]
fn test_counter_float() {
    let point = ScalarPoint {
        attributes: pairs(&[("string", "string")]),
        value: MetricValue::Double(45.0f64.to_bits()),
    };
    let series = sum_convert_f64(
        &point,
        START,
        END,
        &descriptor(MetricKind::Cumulative, ValueType::Double),
        &None,
        false,
        &String::new(),
    );
    assert!(series.point.interval.start_time.is_some());
    match series.point.value {
        TypedValue::Double(bits) => assert_eq!(f64::from_bits(bits), 45.0),
        other => panic!("expected a double value, got {:?}", other),
    }
}

#[test]
fn test_up_down_counter_int() {
    // A non-monotonic sum resolves to a gauge-kind descriptor: the produced
    // point must carry no start time even though one is supplied.
    let point = ScalarPoint {
        attributes: pairs(&[("int", "123")]),
        value: MetricValue::Int64(45),
    };
    let series = sum_convert_i64(
        &point,
        START,
        END,
        &descriptor(MetricKind::Gauge, ValueType::Int64),
        &None,
        false,
        &String::new(),
    );
    assert!(series.point.interval.start_time.is_none());
    assert_eq!(series.point.interval.end_time, timestamp_of_unix_nanos(END));
    assert_eq!(series.point.value, TypedValue::Int64(45));
}

#[test]
fn test_observable_gauge_int() {
    let point = ScalarPoint {
        attributes: pairs(&[]),
        value: MetricValue::Int64(45),
    };
    let series = gauge_convert_i64(
        &point,
        Some(START),
        END,
        &descriptor(MetricKind::Gauge, ValueType::Int64),
        &None,
        false,
        &String::new(),
    );
    assert!(series.point.interval.start_time.is_none());
    assert!(series.point.interval.end_time.seconds > 0);
    assert_eq!(series.point.value, TypedValue::Int64(45));
}

#[test]
fn test_unsigned_values_above_signed_maximum_wrap() {
    let point = ScalarPoint {
        attributes: pairs(&[]),
        value: MetricValue::UInt64(u64::MAX),
    };
    let series = sum_convert_i64(
        &point,
        START,
        END,
        &descriptor(MetricKind::Cumulative, ValueType::Int64),
        &None,
        false,
        &String::new(),
    );
    assert_eq!(series.point.value, TypedValue::Int64(-1));
}

#[test]
fn test_unique_identifier_label_appended() {
    let point = ScalarPoint {
        attributes: pairs(&[("a", "1")]),
        value: MetricValue::Int64(1),
    };
    let series = convert_scalar_point(
        &point,
        Some(START),
        END,
        &descriptor(MetricKind::Cumulative, ValueType::Int64),
        &None,
        true,
        &"0123abcd".to_string(),
    );
    assert_eq!(
        series.labels,
        pairs(&[("a", "1"), ("opentelemetry_id", "0123abcd")])
    );
}

#[test]
fn test_resource_carried_onto_series() {
    let resource = Some(MonitoredResourceData {
        resource_type: "generic_node".to_string(),
        labels: pairs(&[("location", "global"), ("namespace", ""), ("node_id", "")]),
    });
    let point = ScalarPoint {
        attributes: pairs(&[]),
        value: MetricValue::Int64(1),
    };
    let series = sum_convert_i64(
        &point,
        START,
        END,
        &descriptor(MetricKind::Cumulative, ValueType::Int64),
        &resource,
        false,
        &String::new(),
    );
    let carried = series.resource.expect("resource must be carried");
    assert_eq!(carried.resource_type, "generic_node");
    assert_eq!(carried.labels.len(), 3);
}

#[test]
fn test_histogram_default_buckets() {
    // 10,000 recorded values 0..9999 under the default bucket boundaries.
    let bounds: Vec<f64> = vec![
        0.0, 5.0, 10.0, 25.0, 50.0, 75.0, 100.0, 250.0, 500.0, 750.0, 1000.0, 2500.0, 5000.0,
        7500.0, 10000.0,
    ];
    let bucket_counts: Vec<u64> = vec![
        1, 5, 5, 15, 25, 25, 25, 150, 250, 250, 250, 1500, 2500, 2500, 2499, 0,
    ];
    let sum: f64 = (0..10_000).map(|i| i as f64).sum();
    let point = HistogramPoint {
        attributes: pairs(&[("string", "string"), ("int", "123"), ("float", "123.4")]),
        count: 10_000,
        sum: MetricValue::Double(sum.to_bits()),
        bounds: bounds.iter().map(|b| b.to_bits()).collect(),
        bucket_counts: bucket_counts.clone(),
    };
    let series = convert(
        &point,
        START,
        END,
        &descriptor(MetricKind::Cumulative, ValueType::Distribution),
        &None,
        false,
        &String::new(),
    );
    assert!(series.point.interval.start_time.is_some());
    assert_eq!(series.point.interval.end_time, timestamp_of_unix_nanos(END));
    let distribution = distribution_of(&series);
    assert_eq!(distribution.count, 10_000);
    let signed: Vec<i64> = bucket_counts.iter().map(|c| *c as i64).collect();
    assert_eq!(distribution.bucket_counts, signed);
    assert_eq!(distribution.bucket_counts.iter().sum::<i64>(), 10_000);
    match &distribution.bucket_options {
        BucketOptions::Explicit { bounds: b } => {
            let back: Vec<f64> = b.iter().map(|bits| f64::from_bits(*bits)).collect();
            assert_eq!(back, bounds);
        },
        other => panic!("expected explicit bounds, got {:?}", other),
    }
    match distribution.mean {
        DistributionMean::Ratio { sum: MetricValue::Double(bits), count } => {
            assert_eq!(f64::from_bits(bits) / count as f64, 4999.5);
        },
        other => panic!("expected an exact mean pair, got {:?}", other),
    }
}

#[test]
fn test_histogram_single_bucket() {
    let point = HistogramPoint {
        attributes: pairs(&[("string", "string")]),
        count: 10_000,
        sum: MetricValue::Double(49_995_000.0f64.to_bits()),
        bounds: vec![5.5f64.to_bits()],
        bucket_counts: vec![6, 9994],
    };
    let series = convert(
        &point,
        START,
        END,
        &descriptor(MetricKind::Cumulative, ValueType::Distribution),
        &None,
        false,
        &String::new(),
    );
    let distribution = distribution_of(&series);
    assert_eq!(distribution.count, 10_000);
    assert_eq!(distribution.bucket_counts, vec![6, 9994]);
    match &distribution.bucket_options {
        BucketOptions::Explicit { bounds } => {
            assert_eq!(bounds.len(), 1);
            assert_eq!(f64::from_bits(bounds[0]), 5.5);
        },
        other => panic!("expected explicit bounds, got {:?}", other),
    }
    match distribution.mean {
        DistributionMean::Ratio { sum: MetricValue::Double(bits), count } => {
            assert_eq!(f64::from_bits(bits) / count as f64, 4999.5);
        },
        other => panic!("expected an exact mean pair, got {:?}", other),
    }
}

#[test]
fn test_histogram_zero_count_has_zero_mean() {
    let point = HistogramPoint {
        attributes: pairs(&[]),
        count: 0,
        sum: MetricValue::Double(0.0f64.to_bits()),
        bounds: vec![1.0f64.to_bits()],
        bucket_counts: vec![0, 0],
    };
    let series = convert(
        &point,
        START,
        END,
        &descriptor(MetricKind::Cumulative, ValueType::Distribution),
        &None,
        false,
        &String::new(),
    );
    assert_eq!(distribution_of(&series).mean, DistributionMean::Zero);
}

#[test]
fn test_exponential_histogram_reconstruction() {
    let point = ExponentialHistogramPoint {
        attributes: pairs(&[]),
        count: 17,
        sum: MetricValue::Double(34.0f64.to_bits()),
        zero_count: 2,
        scale: 3,
        positive: ExponentialBuckets { offset: -4, counts: vec![4, 0, 6] },
        negative: ExponentialBuckets { offset: 0, counts: vec![1, 2, 2] },
    };
    let series = convert_exponential(
        &point,
        START,
        END,
        &descriptor(MetricKind::Cumulative, ValueType::Distribution),
        &None,
        false,
        &String::new(),
    );
    let distribution = distribution_of(&series);
    // Underflow folds the zero count and every negative-range count.
    assert_eq!(distribution.bucket_counts, vec![7, 4, 0, 6, 0]);
    match distribution.bucket_options {
        BucketOptions::Exponential { num_finite_buckets, scale, offset } => {
            assert_eq!(num_finite_buckets, 3);
            assert_eq!(scale, 3);
            assert_eq!(offset, -4);
        },
        ref other => panic!("expected exponential options, got {:?}", other),
    }
    assert_eq!(distribution.count, 17);
}

#[test]
fn test_exponential_histogram_without_positive_buckets_falls_back() {
    let point = ExponentialHistogramPoint {
        attributes: pairs(&[]),
        count: 3,
        sum: MetricValue::Double(0.0f64.to_bits()),
        zero_count: 1,
        scale: 0,
        positive: ExponentialBuckets { offset: 0, counts: vec![] },
        negative: ExponentialBuckets { offset: 0, counts: vec![2] },
    };
    let series = convert_exponential(
        &point,
        START,
        END,
        &descriptor(MetricKind::Cumulative, ValueType::Distribution),
        &None,
        false,
        &String::new(),
    );
    let distribution = distribution_of(&series);
    assert_eq!(distribution.bucket_counts, vec![3, 0]);
    assert_eq!(distribution.bucket_counts.len(), 2);
    match &distribution.bucket_options {
        BucketOptions::Explicit { bounds } => {
            assert_eq!(bounds.len(), 1);
            assert_eq!(f64::from_bits(bounds[0]), 0.0);
        },
        other => panic!("expected the explicit fallback, got {:?}", other),
    }
}

#[test]
fn test_exponential_histogram_zero_count_has_zero_mean() {
    let point = ExponentialHistogramPoint {
        attributes: pairs(&[]),
        count: 0,
        sum: MetricValue::Double(0.0f64.to_bits()),
        zero_count: 0,
        scale: 0,
        positive: ExponentialBuckets { offset: 0, counts: vec![] },
        negative: ExponentialBuckets { offset: 0, counts: vec![] },
    };
    let series = convert_exponential(
        &point,
        START,
        END,
        &descriptor(MetricKind::Cumulative, ValueType::Distribution),
        &None,
        false,
        &String::new(),
    );
    assert_eq!(distribution_of(&series).mean, DistributionMean::Zero);
}
