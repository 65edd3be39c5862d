//! Tests of the exporter instance: configuration defaults, resource
//! resolution priority, the full metric-to-series path and the chunking of
//! submissions.

use gcp_metrics_exporter::exporter::{SubmitAction, SubmitOutcome, apply_submit_outcome,
    chunk_series};
use gcp_metrics_exporter::model::{
    AggregationData, Metric, MetricValue, MonitoredResourceData, NumericKind, ScalarPoint,
};
use gcp_metrics_exporter::wire::{MetricKind, TimeSeries, TypedValue, ValueType, WirePoint,
    TimeInterval, timestamp_of_unix_nanos};
use gcp_metrics_exporter::{GCPMetricsExporter, GCPMetricsExporterConfig,
    MonitoredResourceDataConfig};

fn pairs(items: &[(&str, &str)]) -> Vec<(String, String)> {
    items.iter().map(|(k, v)| (k.to_string(), v.to_string())).collect()
}

fn exporter_with(config: GCPMetricsExporterConfig) -> GCPMetricsExporter {
    GCPMetricsExporter::new("fake_project_id".to_string(), config)
}

fn counter(name: &str, value: i64, attributes: Vec<(String, String)>) -> Metric {
    Metric {
        name: name.to_string(),
        unit: "myunit".to_string(),
        description: "foo".to_string(),
        numeric_kind: NumericKind::Int64,
        data: AggregationData::Sum {
            monotonic: true,
            start_time_unix_nanos: 1_723_249_032_929_246_000,
            time_unix_nanos: 1_723_249_032_972_447_000,
            points: vec![ScalarPoint { attributes, value: MetricValue::Int64(value) }],
        },
    }
}

fn plain_series(tag: i64) -> TimeSeries {
    TimeSeries {
        metric_type: "workload.googleapis.com/mycounter".to_string(),
        labels: vec![],
        metric_kind: MetricKind::Cumulative,
        value_type: ValueType::Int64,
        resource: None,
        point: WirePoint {
            interval: TimeInterval {
                start_time: None,
                end_time: timestamp_of_unix_nanos(0),
            },
            value: TypedValue::Int64(tag),
        },
        unit: String::new(),
    }
}

#[test]
fn test_default_config() {
    let config = GCPMetricsExporterConfig::default();
    assert_eq!(config.prefix, "workload.googleapis.com");
    assert_eq!(config.project_id, None);
    assert!(!config.add_unique_identifier);
    assert_eq!(config.custom_monitored_resource_data, None);
}

#[test]
fn test_new_exporter_draws_an_eight_digit_identifier() {
    let exporter = exporter_with(GCPMetricsExporterConfig::default());
    assert_eq!(exporter.project_id, "fake_project_id");
    assert_eq!(exporter.prefix, "workload.googleapis.com");
    assert_eq!(exporter.unique_identifier.len(), 8);
    assert!(exporter
        .unique_identifier
        .chars()
        .all(|c| c.is_ascii_digit() || ('a'..='f').contains(&c)));
    assert_eq!(exporter.metric_descriptors.len(), 0);
}

#[test]
fn test_submission_outcome_decisions() {
    // Permission denial abandons the remaining chunks; success and any other
    // error go on to the next chunk (the failed chunk is never retried).
    assert_eq!(
        apply_submit_outcome(SubmitOutcome::Submitted),
        SubmitAction::NextChunk
    );
    assert_eq!(
        apply_submit_outcome(SubmitOutcome::OtherError),
        SubmitAction::NextChunk
    );
    assert_eq!(
        apply_submit_outcome(SubmitOutcome::PermissionDenied),
        SubmitAction::AbortRemaining
    );
}

#[test]
fn test_custom_resource_takes_priority_over_detected() {
    let mut config = GCPMetricsExporterConfig::default();
    config.custom_monitored_resource_data = Some(MonitoredResourceDataConfig {
        resource_type: "global".to_string(),
        labels: pairs(&[("project_id", "fake_project_id")]),
    });
    let exporter = exporter_with(config);
    let detected = Some(MonitoredResourceData {
        resource_type: "generic_node".to_string(),
        labels: pairs(&[("location", "global")]),
    });
    let resolved = exporter.resolve_resource(detected).expect("must resolve");
    assert_eq!(resolved.resource_type, "global");
    assert_eq!(resolved.labels, pairs(&[("project_id", "fake_project_id")]));
}

#[test]
fn test_detected_resource_used_without_custom_one() {
    let exporter = exporter_with(GCPMetricsExporterConfig::default());
    let detected = Some(MonitoredResourceData {
        resource_type: "generic_node".to_string(),
        labels: pairs(&[("location", "global"), ("namespace", ""), ("node_id", "")]),
    });
    let resolved = exporter.resolve_resource(detected).expect("must keep detected");
    assert_eq!(resolved.resource_type, "generic_node");
    let none = exporter.resolve_resource(None);
    assert!(none.is_none());
}

#[test]
fn test_export_counter_end_to_end() {
    // One counter with string, int and float attributes: the descriptor is
    // cumulative Int64 under the prefixed type, and the one series carries
    // the stringified labels and the integer value.
    let exporter = exporter_with(GCPMetricsExporterConfig::default());
    let metric = counter(
        "mycounter",
        45,
        pairs(&[("string", "string"), ("int", "123"), ("float", "123.4")]),
    );

    let descriptor_type = exporter.descriptor_type_for(&metric);
    assert_eq!(descriptor_type, "workload.googleapis.com/mycounter");
    assert!(exporter.cached_descriptor(&descriptor_type).is_none());

    let descriptor = exporter.build_metric_descriptor(&metric);
    assert_eq!(descriptor.descriptor_type, "workload.googleapis.com/mycounter");
    assert_eq!(descriptor.display_name, "mycounter");
    assert_eq!(descriptor.description, "foo");
    assert_eq!(descriptor.unit, "myunit");
    assert_eq!(descriptor.label_keys, vec!["string", "int", "float"]);
    assert_eq!(descriptor.metric_kind, MetricKind::Cumulative);
    assert_eq!(descriptor.value_type, ValueType::Int64);

    let series = exporter.convert_metric(&metric, &descriptor, &None);
    assert_eq!(series.len(), 1);
    assert_eq!(series[0].metric_type, "workload.googleapis.com/mycounter");
    assert_eq!(
        series[0].labels,
        pairs(&[("string", "string"), ("int", "123"), ("float", "123.4")])
    );
    assert_eq!(series[0].point.value, TypedValue::Int64(45));
    assert!(series[0].point.interval.start_time.is_some());
    assert_eq!(series[0].unit, "myunit");
}

#[test]
fn test_invalid_label_key_round_trips_through_the_pipeline() {
    // A label key needing every normalization step survives as the sole
    // label of both the descriptor schema and the produced series.
    let exporter = exporter_with(GCPMetricsExporterConfig::default());
    let metric = counter("mycounter", 12, pairs(&[("1some.invalid$\\key", "value")]));
    let descriptor = exporter.build_metric_descriptor(&metric);
    assert_eq!(descriptor.label_keys, vec!["key_1some_invalid__key"]);
    let series = exporter.convert_metric(&metric, &descriptor, &None);
    assert_eq!(series.len(), 1);
    assert_eq!(series[0].labels, pairs(&[("key_1some_invalid__key", "value")]));
}

#[test]
fn test_with_resource() {
    let exporter = exporter_with(GCPMetricsExporterConfig::default());
    let metric = counter("mycounter", 12, pairs(&[("string", "string")]));
    let descriptor = exporter.build_metric_descriptor(&metric);
    let resource = exporter.resolve_resource(Some(MonitoredResourceData {
        resource_type: "k8s_container".to_string(),
        labels: pairs(&[
            ("location", "myavailzone"),
            ("cluster_name", "mycluster"),
            ("namespace_name", "myns"),
            ("pod_name", "mypod"),
            ("container_name", "mycontainer"),
        ]),
    }));
    let series = exporter.convert_metric(&metric, &descriptor, &resource);
    assert_eq!(series.len(), 1);
    let carried = series[0].resource.as_ref().expect("resource must be carried");
    assert_eq!(carried.resource_type, "k8s_container");
    assert_eq!(carried.labels.len(), 5);
}

#[test]
fn test_unique_identifier_flag_flows_into_series() {
    let mut config = GCPMetricsExporterConfig::default();
    config.add_unique_identifier = true;
    let exporter = exporter_with(config);
    let metric = counter("mycounter", 1, pairs(&[("a", "1")]));
    let descriptor = exporter.build_metric_descriptor(&metric);
    assert_eq!(descriptor.label_keys.last().unwrap(), "opentelemetry_id");
    let series = exporter.convert_metric(&metric, &descriptor, &None);
    assert_eq!(series[0].labels.len(), 2);
    assert_eq!(series[0].labels[1].0, "opentelemetry_id");
    assert_eq!(series[0].labels[1].1, exporter.unique_identifier);
}

#[test]
fn test_convert_snapshot_skips_unresolved_metrics() {
    let exporter = exporter_with(GCPMetricsExporterConfig::default());
    let metrics = vec![
        counter("a", 1, pairs(&[])),
        counter("b", 2, pairs(&[])),
        counter("c", 3, pairs(&[])),
    ];
    let descriptors = vec![
        Some(exporter.build_metric_descriptor(&metrics[0])),
        None,
        Some(exporter.build_metric_descriptor(&metrics[2])),
    ];
    let series = exporter.convert_snapshot(&metrics, &descriptors, &None);
    assert_eq!(series.len(), 2);
    assert_eq!(series[0].metric_type, "workload.googleapis.com/a");
    assert_eq!(series[1].metric_type, "workload.googleapis.com/c");
}

#[test]
fn test_chunking_450_series_gives_three_calls() {
    let all: Vec<TimeSeries> = (0..450).map(|i| plain_series(i)).collect();
    let chunks = chunk_series(all);
    let sizes: Vec<usize> = chunks.iter().map(|c| c.len()).collect();
    assert_eq!(sizes, vec![200, 200, 50]);
    // Order and content are preserved across the partition.
    let mut tag: i64 = 0;
    for chunk in &chunks {
        for series in chunk {
            assert_eq!(series.point.value, TypedValue::Int64(tag));
            tag += 1;
        }
    }
    assert_eq!(tag, 450);
}

#[test]
fn test_chunking_edge_sizes() {
    assert_eq!(chunk_series(vec![]).len(), 0);
    let one = chunk_series(vec![plain_series(0)]);
    assert_eq!(one.len(), 1);
    assert_eq!(one[0].len(), 1);
    let exact: Vec<TimeSeries> = (0..400).map(|i| plain_series(i)).collect();
    let chunks = chunk_series(exact);
    let sizes: Vec<usize> = chunks.iter().map(|c| c.len()).collect();
    assert_eq!(sizes, vec![200, 200]);
}
