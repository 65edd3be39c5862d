//! Tests of descriptor derivation: identity, label schema, metric kind and
//! value type over every aggregation and numeric kind.

use gcp_metrics_exporter::descriptor::{build_descriptor, collect_metric_label_keys};
use gcp_metrics_exporter::model::{
    AggregationData, ExponentialBuckets, ExponentialHistogramPoint, HistogramPoint, Metric,
    MetricValue, NumericKind, ScalarPoint,
};
use gcp_metrics_exporter::wire::{MetricKind, ValueType};

fn pairs(items: &[(&str, &str)]) -> Vec<(String, String)> {
    items.iter().map(|(k, v)| (k.to_string(), v.to_string())).collect()
}

fn counter_metric(name: &str, monotonic: bool, kind: NumericKind) -> Metric {
    let value = match kind {
        NumericKind::Double => MetricValue::Double(45.0f64.to_bits()),
        NumericKind::Int64 => MetricValue::Int64(45),
        NumericKind::UInt64 => MetricValue::UInt64(45),
    };
    Metric {
        name: name.to_string(),
        unit: "myunit".to_string(),
        description: "foo".to_string(),
        numeric_kind: kind,
        data: AggregationData::Sum {
            monotonic,
            start_time_unix_nanos: 1,
            time_unix_nanos: 2,
            points: vec![ScalarPoint {
                attributes: pairs(&[("string", "string"), ("int", "123"), ("float", "123.4")]),
                value,
            }],
        },
    }
}

#[test]
fn test_descriptor_for_int_counter() {
    let metric = counter_metric("mycounter", true, NumericKind::Int64);
    let descriptor = build_descriptor(&metric, &"workload.googleapis.com".to_string(), false);
    assert_eq!(descriptor.descriptor_type, "workload.googleapis.com/mycounter");
    assert_eq!(descriptor.display_name, "mycounter");
    assert_eq!(descriptor.description, "foo");
    assert_eq!(descriptor.unit, "myunit");
    assert_eq!(descriptor.label_keys, vec!["string", "int", "float"]);
    assert_eq!(descriptor.metric_kind, MetricKind::Cumulative);
    assert_eq!(descriptor.value_type, ValueType::Int64);
}

#[test]
fn test_descriptor_for_float_counter() {
    let metric = counter_metric("mycounter", true, NumericKind::Double);
    let descriptor = build_descriptor(&metric, &"workload.googleapis.com".to_string(), false);
    assert_eq!(descriptor.metric_kind, MetricKind::Cumulative);
    assert_eq!(descriptor.value_type, ValueType::Double);
}

#[test]
fn test_descriptor_for_up_down_counter_is_gauge_kind() {
    let metric = counter_metric("myupdowncounter", false, NumericKind::Int64);
    let descriptor = build_descriptor(&metric, &"workload.googleapis.com".to_string(), false);
    assert_eq!(descriptor.descriptor_type, "workload.googleapis.com/myupdowncounter");
    assert_eq!(descriptor.metric_kind, MetricKind::Gauge);
    assert_eq!(descriptor.value_type, ValueType::Int64);
}

#[test]
fn test_descriptor_for_unsigned_counter_declares_int64() {
    let metric = counter_metric("mycounter", true, NumericKind::UInt64);
    let descriptor = build_descriptor(&metric, &"workload.googleapis.com".to_string(), false);
    assert_eq!(descriptor.value_type, ValueType::Int64);
}

#[test]
fn test_descriptor_for_gauge() {
    let metric = Metric {
        name: "myobservablegauge".to_string(),
        unit: "myunit".to_string(),
        description: "foo".to_string(),
        numeric_kind: NumericKind::Double,
        data: AggregationData::Gauge {
            start_time_unix_nanos: None,
            time_unix_nanos: 2,
            points: vec![ScalarPoint {
                attributes: pairs(&[("string", "string")]),
                value: MetricValue::Double(45.0f64.to_bits()),
            }],
        },
    };
    let descriptor = build_descriptor(&metric, &"workload.googleapis.com".to_string(), false);
    assert_eq!(descriptor.metric_kind, MetricKind::Gauge);
    assert_eq!(descriptor.value_type, ValueType::Double);
}

#[test]
fn test_descriptor_for_histogram() {
    let metric = Metric {
        name: "myhistogram".to_string(),
        unit: "myunit".to_string(),
        description: "foo".to_string(),
        numeric_kind: NumericKind::Double,
        data: AggregationData::Histogram {
            start_time_unix_nanos: 1,
            time_unix_nanos: 2,
            points: vec![HistogramPoint {
                attributes: pairs(&[("string", "string")]),
                count: 0,
                sum: MetricValue::Double(0.0f64.to_bits()),
                bounds: vec![],
                bucket_counts: vec![0],
            }],
        },
    };
    let descriptor = build_descriptor(&metric, &"workload.googleapis.com".to_string(), false);
    assert_eq!(descriptor.descriptor_type, "workload.googleapis.com/myhistogram");
    assert_eq!(descriptor.metric_kind, MetricKind::Cumulative);
    assert_eq!(descriptor.value_type, ValueType::Distribution);
}

#[test]
fn test_descriptor_for_exponential_histogram() {
    let metric = Metric {
        name: "myexphistogram".to_string(),
        unit: "myunit".to_string(),
        description: "foo".to_string(),
        numeric_kind: NumericKind::Int64,
        data: AggregationData::ExponentialHistogram {
            start_time_unix_nanos: 1,
            time_unix_nanos: 2,
            points: vec![ExponentialHistogramPoint {
                attributes: pairs(&[]),
                count: 0,
                sum: MetricValue::Int64(0),
                zero_count: 0,
                scale: 0,
                positive: ExponentialBuckets { offset: 0, counts: vec![] },
                negative: ExponentialBuckets { offset: 0, counts: vec![] },
            }],
        },
    };
    let descriptor = build_descriptor(&metric, &"workload.googleapis.com".to_string(), false);
    assert_eq!(descriptor.metric_kind, MetricKind::Cumulative);
    assert_eq!(descriptor.value_type, ValueType::Distribution);
}

#[test]
fn test_descriptor_label_keys_are_the_union_across_points() {
    let metric = Metric {
        name: "m".to_string(),
        unit: String::new(),
        description: String::new(),
        numeric_kind: NumericKind::Int64,
        data: AggregationData::Sum {
            monotonic: true,
            start_time_unix_nanos: 1,
            time_unix_nanos: 2,
            points: vec![
                ScalarPoint {
                    attributes: pairs(&[("a", "1"), ("b", "2")]),
                    value: MetricValue::Int64(1),
                },
                ScalarPoint {
                    attributes: pairs(&[("b", "3"), ("c", "4")]),
                    value: MetricValue::Int64(2),
                },
            ],
        },
    };
    let keys = collect_metric_label_keys(&metric);
    assert_eq!(keys, vec!["a", "b", "c"]);
    let descriptor = build_descriptor(&metric, &"p".to_string(), false);
    assert_eq!(descriptor.label_keys, vec!["a", "b", "c"]);
}

#[test]
fn test_descriptor_label_keys_are_normalized() {
    let metric = Metric {
        name: "mycounter".to_string(),
        unit: "myunit".to_string(),
        description: "foo".to_string(),
        numeric_kind: NumericKind::Int64,
        data: AggregationData::Sum {
            monotonic: true,
            start_time_unix_nanos: 1,
            time_unix_nanos: 2,
            points: vec![ScalarPoint {
                attributes: pairs(&[("1some.invalid$\\key", "value")]),
                value: MetricValue::Int64(12),
            }],
        },
    };
    let descriptor = build_descriptor(&metric, &"workload.googleapis.com".to_string(), false);
    assert_eq!(descriptor.label_keys, vec!["key_1some_invalid__key"]);
}

#[test]
fn test_descriptor_gains_unique_identifier_label() {
    let metric = counter_metric("mycounter", true, NumericKind::Int64);
    let descriptor = build_descriptor(&metric, &"workload.googleapis.com".to_string(), true);
    assert_eq!(
        descriptor.label_keys,
        vec!["string", "int", "float", "opentelemetry_id"]
    );
}
