//! Conversion of one sum or gauge data point into one wire time series.
//!
//! The end time is always set; the start time is set only when the
//! descriptor's metric kind is cumulative or delta, since gauge points are
//! instantaneous samples. The wire value field — double or signed integer —
//! follows the point's numeric kind.

use vstd::prelude::*;

use crate::model::{MetricValue, MonitoredResourceData, ScalarPoint};
use crate::series::{
    build_labels, build_scalar_interval, build_scalar_typed_value, clone_resource,
    kind_has_start_time, labels_spec, scalar_interval_spec, scalar_typed_value_spec,
};
use crate::wire::{
    MetricDescriptor, MetricDescriptorV, MetricKind, MonitoredResourceDataV, TimeSeries,
    TimeSeriesV, WirePointV, timestamp_of_unix_nanos_spec, valid_unix_nanos,
};

verus! {

/// The time series one scalar (sum or gauge) data point produces.
pub open spec fn scalar_time_series_spec(
    point: ScalarPoint,
    start_time_unix_nanos: Option<u128>,
    time_unix_nanos: u128,
    descriptor: MetricDescriptorV,
    resource: Option<MonitoredResourceDataV>,
    add_unique_identifier: bool,
    unique_identifier: Seq<char>,
) -> TimeSeriesV {
    TimeSeriesV {
        metric_type: descriptor.descriptor_type,
        labels: labels_spec(
            point.attributes.deep_view(),
            add_unique_identifier,
            unique_identifier,
        ),
        metric_kind: descriptor.metric_kind,
        value_type: descriptor.value_type,
        resource: resource,
        point: WirePointV {
            interval: scalar_interval_spec(
                descriptor.metric_kind,
                start_time_unix_nanos,
                time_unix_nanos,
            ),
            value: scalar_typed_value_spec(point.value),
        },
        unit: descriptor.unit,
    }
}

/// Convert one scalar data point into one time series.
///
/// The produced point carries an end time in every case and a start time
/// exactly when the descriptor's metric kind is cumulative or delta and a
/// start time was supplied; a gauge-kind series carries none.
pub fn convert_scalar_point(
    point: &ScalarPoint,
    start_time_unix_nanos: Option<u128>,
    time_unix_nanos: u128,
    descriptor: &MetricDescriptor,
    resource: &Option<MonitoredResourceData>,
    add_unique_identifier: bool,
    unique_identifier: &String,
) -> (r: TimeSeries)
    requires
        start_time_unix_nanos matches Some(n) ==> valid_unix_nanos(n),
        valid_unix_nanos(time_unix_nanos),
    ensures
        r@ == scalar_time_series_spec(
            *point,
            start_time_unix_nanos,
            time_unix_nanos,
            descriptor@,
            resource.deep_view(),
            add_unique_identifier,
            unique_identifier@,
        ),
        descriptor@.metric_kind == MetricKind::Gauge ==> r@.point.interval.start_time is None,
        start_time_unix_nanos matches Some(n) ==> (kind_has_start_time(descriptor@.metric_kind)
            ==> r@.point.interval.start_time == Some(timestamp_of_unix_nanos_spec(n))),
{
    let labels = build_labels(&point.attributes, add_unique_identifier, unique_identifier);
    let interval = build_scalar_interval(
        descriptor.metric_kind,
        start_time_unix_nanos,
        time_unix_nanos,
    );
    let value = build_scalar_typed_value(point.value);
    TimeSeries {
        metric_type: descriptor.descriptor_type.clone(),
        labels,
        metric_kind: descriptor.metric_kind,
        value_type: descriptor.value_type,
        resource: clone_resource(resource),
        point: crate::wire::WirePoint { interval, value },
        unit: descriptor.unit.clone(),
    }
}

/// Convert one sum data point carrying a double value; the interval start is
/// always supplied, and kept exactly when the descriptor's kind is
/// cumulative or delta.
pub fn sum_convert_f64(
    point: &ScalarPoint,
    start_time_unix_nanos: u128,
    time_unix_nanos: u128,
    descriptor: &MetricDescriptor,
    resource: &Option<MonitoredResourceData>,
    add_unique_identifier: bool,
    unique_identifier: &String,
) -> (r: TimeSeries)
    requires
        point.value is Double,
        valid_unix_nanos(start_time_unix_nanos),
        valid_unix_nanos(time_unix_nanos),
    ensures
        r@ == scalar_time_series_spec(
            *point,
            Some(start_time_unix_nanos),
            time_unix_nanos,
            descriptor@,
            resource.deep_view(),
            add_unique_identifier,
            unique_identifier@,
        ),
{
    convert_scalar_point(
        point,
        Some(start_time_unix_nanos),
        time_unix_nanos,
        descriptor,
        resource,
        add_unique_identifier,
        unique_identifier,
    )
}

/// Convert one sum data point carrying an integer value; the interval start
/// is always supplied, and kept exactly when the descriptor's kind is
/// cumulative or delta.
pub fn sum_convert_i64(
    point: &ScalarPoint,
    start_time_unix_nanos: u128,
    time_unix_nanos: u128,
    descriptor: &MetricDescriptor,
    resource: &Option<MonitoredResourceData>,
    add_unique_identifier: bool,
    unique_identifier: &String,
) -> (r: TimeSeries)
    requires
        point.value is Int64 || point.value is UInt64,
        valid_unix_nanos(start_time_unix_nanos),
        valid_unix_nanos(time_unix_nanos),
    ensures
        r@ == scalar_time_series_spec(
            *point,
            Some(start_time_unix_nanos),
            time_unix_nanos,
            descriptor@,
            resource.deep_view(),
            add_unique_identifier,
            unique_identifier@,
        ),
{
    convert_scalar_point(
        point,
        Some(start_time_unix_nanos),
        time_unix_nanos,
        descriptor,
        resource,
        add_unique_identifier,
        unique_identifier,
    )
}

/// Convert one gauge data point carrying a double value; the produced series
/// is instantaneous under a gauge-kind descriptor and carries no start time
/// then.
pub fn gauge_convert_f64(
    point: &ScalarPoint,
    start_time_unix_nanos: Option<u128>,
    time_unix_nanos: u128,
    descriptor: &MetricDescriptor,
    resource: &Option<MonitoredResourceData>,
    add_unique_identifier: bool,
    unique_identifier: &String,
) -> (r: TimeSeries)
    requires
        point.value is Double,
        start_time_unix_nanos matches Some(n) ==> valid_unix_nanos(n),
        valid_unix_nanos(time_unix_nanos),
    ensures
        r@ == scalar_time_series_spec(
            *point,
            start_time_unix_nanos,
            time_unix_nanos,
            descriptor@,
            resource.deep_view(),
            add_unique_identifier,
            unique_identifier@,
        ),
        descriptor@.metric_kind == MetricKind::Gauge ==> r@.point.interval.start_time is None,
{
    convert_scalar_point(
        point,
        start_time_unix_nanos,
        time_unix_nanos,
        descriptor,
        resource,
        add_unique_identifier,
        unique_identifier,
    )
}

/// Convert one gauge data point carrying an integer value; the produced
/// series is instantaneous under a gauge-kind descriptor and carries no
/// start time then.
pub fn gauge_convert_i64(
    point: &ScalarPoint,
    start_time_unix_nanos: Option<u128>,
    time_unix_nanos: u128,
    descriptor: &MetricDescriptor,
    resource: &Option<MonitoredResourceData>,
    add_unique_identifier: bool,
    unique_identifier: &String,
) -> (r: TimeSeries)
    requires
        point.value is Int64 || point.value is UInt64,
        start_time_unix_nanos matches Some(n) ==> valid_unix_nanos(n),
        valid_unix_nanos(time_unix_nanos),
    ensures
        r@ == scalar_time_series_spec(
            *point,
            start_time_unix_nanos,
            time_unix_nanos,
            descriptor@,
            resource.deep_view(),
            add_unique_identifier,
            unique_identifier@,
        ),
        descriptor@.metric_kind == MetricKind::Gauge ==> r@.point.interval.start_time is None,
{
    convert_scalar_point(
        point,
        start_time_unix_nanos,
        time_unix_nanos,
        descriptor,
        resource,
        add_unique_identifier,
        unique_identifier,
    )
}

} // verus!
