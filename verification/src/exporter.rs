//! The exporter instance: its configuration, its construction, the
//! per-instance uniqueness identifier, descriptor resolution against the
//! create-once cache, the dispatch of every data point to its converter, and
//! the partition of the produced series into bounded submission chunks.
//!
//! Network delivery happens outside this crate: the surrounding code looks
//! up or builds a descriptor here, performs the remote creation call, hands
//! the outcome back to [`GCPMetricsExporter::apply_create_outcome`], converts
//! the metrics of the snapshot through
//! [`GCPMetricsExporter::convert_metric`], and submits what
//! [`chunk_series`] hands it, chunk by chunk.

use vstd::prelude::*;

use crate::cache::{CreateDescriptorOutcome, DescriptorCache, ResolveAction, apply_create_outcome};
use crate::data_point_to_time_series::{
    gauge_convert_f64, gauge_convert_i64, scalar_time_series_spec, sum_convert_f64,
    sum_convert_i64,
};
use crate::descriptor::{build_descriptor, descriptor_spec, descriptor_type_string,
    descriptor_type_spec};
use crate::histogram_data_point_to_time_series::{
    convert, convert_exponential, exponential_time_series_spec, histogram_time_series_spec,
    sum_of_counts,
};
use crate::model::{
    AggregationData, ExponentialHistogramPoint, HistogramPoint, Metric, MonitoredResourceData,
    NumericKind, ScalarPoint, clone_string_pairs,
};
use crate::wire::{
    MetricDescriptor, MetricDescriptorV, MonitoredResourceDataV, TimeSeries, TimeSeriesV,
    valid_unix_nanos,
};

verus! {

/// Configuration of the exporter.
#[derive(Clone, PartialEq, Debug)]
pub struct GCPMetricsExporterConfig {
    /// The prefix of every metric type; `workload.googleapis.com` by default.
    pub prefix: String,
    /// The Google Cloud project to write into; when absent, the surrounding
    /// code determines it from the environment.
    pub project_id: Option<String>,
    /// Add an identifier label to each exported series. Needed when two or
    /// more exporters may export to the same metric name within the write
    /// interval of each other.
    pub add_unique_identifier: bool,
    /// A static monitored resource that, when present, always takes priority
    /// over a detector-supplied one.
    pub custom_monitored_resource_data: Option<MonitoredResourceDataConfig>,
}

/// A statically configured monitored resource: a type and its label pairs.
#[derive(Clone, PartialEq, Debug)]
pub struct MonitoredResourceDataConfig {
    /// The resource type, such as `global` or `generic_node`.
    pub resource_type: String,
    /// The resource's label pairs.
    pub labels: Vec<(String, String)>,
}

/// The monitored resource a static configuration stands for.
pub open spec fn config_resource_view(c: MonitoredResourceDataConfig) -> MonitoredResourceDataV {
    MonitoredResourceDataV { resource_type: c.resource_type@, labels: c.labels.deep_view() }
}

impl Default for GCPMetricsExporterConfig {
    /// The default configuration: the `workload.googleapis.com` prefix, no
    /// explicit project, no uniqueness label, no static resource.
    fn default() -> (r: Self)
        ensures
            r.prefix@ == "workload.googleapis.com"@,
            r.project_id is None,
            !r.add_unique_identifier,
            r.custom_monitored_resource_data is None,
    {
        GCPMetricsExporterConfig {
            prefix: String::from_str("workload.googleapis.com"),
            project_id: None,
            add_unique_identifier: false,
            custom_monitored_resource_data: None,
        }
    }
}

/// A lowercase hexadecimal digit: `0`-`9` or `a`-`f`.
pub open spec fn is_lower_hex_digit(c: char) -> bool {
    crate::labels::is_ascii_digit(c) || (97 <= c as u32 && c as u32 <= 102)
}

/// Relies on rand's `random_range` over `0..u32::MAX` — the thread-local
/// generator draws one number below `u32::MAX`; the range is not empty, so
/// the call returns — rendered by the format macro as zero-padded lowercase
/// hexadecimal: for any value below `2^32` that is exactly eight characters,
/// each a digit or `a`-`f`.
#[verifier::external_body]
fn fresh_unique_identifier() -> (r: String)
    ensures
        r@.len() == 8,
        forall|i: int| 0 <= i < r@.len() ==> is_lower_hex_digit(#[trigger] r@[i]),
{
    format!("{:08x}", rand::random_range(0u32..u32::MAX))
}

/// A metrics exporter instance for Google Cloud Monitoring: the translation
/// state of one exporter — its settings, its per-process identifier and its
/// descriptor cache. The remote client and the lock guarding concurrent
/// export cycles live with the surrounding code.
#[derive(Debug)]
pub struct GCPMetricsExporter {
    /// The prefix of every metric type.
    pub prefix: String,
    /// The Google Cloud project written into.
    pub project_id: String,
    /// Whether each exported series carries the identifier label.
    pub add_unique_identifier: bool,
    /// The per-process random identifier; eight hexadecimal digits.
    pub unique_identifier: String,
    /// The create-once descriptor cache.
    pub metric_descriptors: DescriptorCache,
    /// A static monitored resource taking priority over a detected one.
    pub custom_monitored_resource_data: Option<MonitoredResourceDataConfig>,
}

impl GCPMetricsExporter {
    /// Well-formed: the descriptor cache holds at most one entry per type.
    pub open spec fn wf(self) -> bool {
        self.metric_descriptors.wf()
    }

    /// Build an exporter for a project from its configuration. The unique
    /// identifier — eight lowercase hexadecimal digits — is drawn once here
    /// and never changes.
    pub fn new(project_id: String, config: GCPMetricsExporterConfig) -> (r: Self)
        ensures
            r.wf(),
            r.prefix == config.prefix,
            r.project_id == project_id,
            r.add_unique_identifier == config.add_unique_identifier,
            r.unique_identifier@.len() == 8,
            forall|i: int| 0 <= i < r.unique_identifier@.len() ==> is_lower_hex_digit(
                #[trigger] r.unique_identifier@[i],
            ),
            r.metric_descriptors.entries@.len() == 0,
            r.custom_monitored_resource_data == config.custom_monitored_resource_data,
    {
        GCPMetricsExporter {
            prefix: config.prefix,
            project_id,
            add_unique_identifier: config.add_unique_identifier,
            unique_identifier: fresh_unique_identifier(),
            metric_descriptors: DescriptorCache::new(),
            custom_monitored_resource_data: config.custom_monitored_resource_data,
        }
    }

    /// The monitored resource of the export cycle: the statically configured
    /// one when present — it always takes priority — and otherwise whatever
    /// the resource detector supplied, possibly nothing.
    pub fn resolve_resource(&self, detected: Option<MonitoredResourceData>) -> (r: Option<
        MonitoredResourceData,
    >)
        ensures
            match self.custom_monitored_resource_data {
                Some(c) => r matches Some(rd) && rd@ == config_resource_view(c),
                None => r == detected,
            },
    {
        match &self.custom_monitored_resource_data {
            Some(c) => Some(
                MonitoredResourceData {
                    resource_type: c.resource_type.clone(),
                    labels: clone_string_pairs(&c.labels),
                },
            ),
            None => detected,
        }
    }

    /// The descriptor type string of a metric under this exporter's prefix.
    pub fn descriptor_type_for(&self, metric: &Metric) -> (r: String)
        ensures
            r@ == descriptor_type_spec(self.prefix@, metric.name@),
    {
        descriptor_type_string(&self.prefix, &metric.name)
    }

    /// Look up the descriptor cached under a type string, if any.
    pub fn cached_descriptor(&self, descriptor_type: &String) -> (r: Option<MetricDescriptor>)
        requires
            self.wf(),
        ensures
            match r {
                Some(d) => self.metric_descriptors.spec_contains(descriptor_type@) && d@
                    == self.metric_descriptors.spec_at(descriptor_type@),
                None => !self.metric_descriptors.spec_contains(descriptor_type@),
            },
    {
        self.metric_descriptors.lookup(descriptor_type)
    }

    /// Build the descriptor this exporter declares for a metric.
    pub fn build_metric_descriptor(&self, metric: &Metric) -> (r: MetricDescriptor)
        ensures
            r@ == descriptor_spec(*metric, self.prefix@, self.add_unique_identifier),
    {
        build_descriptor(metric, &self.prefix, self.add_unique_identifier)
    }

    /// Apply the outcome of the remote creation attempt for a descriptor:
    /// success and "already exists" cache it and proceed; permission denial
    /// aborts the cycle; any other error skips the metric for this cycle.
    /// Nothing but the cache changes.
    pub fn apply_create_outcome(
        &mut self,
        descriptor_type: String,
        descriptor: MetricDescriptor,
        outcome: CreateDescriptorOutcome,
    ) -> (r: ResolveAction)
        requires
            old(self).wf(),
        ensures
            final(self).wf(),
            final(self).prefix == old(self).prefix,
            final(self).project_id == old(self).project_id,
            final(self).add_unique_identifier == old(self).add_unique_identifier,
            final(self).unique_identifier == old(self).unique_identifier,
            final(self).custom_monitored_resource_data == old(
                self,
            ).custom_monitored_resource_data,
            (outcome == CreateDescriptorOutcome::Created || outcome
                == CreateDescriptorOutcome::AlreadyExists) ==> {
                &&& r == ResolveAction::Proceed
                &&& final(self).metric_descriptors.spec_contains(descriptor_type@)
                &&& final(self).metric_descriptors.spec_at(descriptor_type@) == descriptor@
                &&& crate::cache::key_count(
                    final(self).metric_descriptors.entries@,
                    descriptor_type@,
                ) == 1
                &&& forall|k: Seq<char>|
                    k != descriptor_type@ ==> (#[trigger] final(self).metric_descriptors.spec_contains(k)
                        <==> old(self).metric_descriptors.spec_contains(k))
                &&& forall|k: Seq<char>|
                    k != descriptor_type@ && old(self).metric_descriptors.spec_contains(k)
                        ==> (#[trigger] final(self).metric_descriptors.spec_at(k))
                            == old(self).metric_descriptors.spec_at(k)
            },
            outcome == CreateDescriptorOutcome::PermissionDenied ==> r
                == ResolveAction::AbortCycle && final(self).metric_descriptors == old(
                self,
            ).metric_descriptors,
            outcome == CreateDescriptorOutcome::OtherError ==> r == ResolveAction::SkipMetric
                && final(self).metric_descriptors == old(self).metric_descriptors,
    {
        apply_create_outcome(&mut self.metric_descriptors, descriptor_type, descriptor, outcome)
    }

    /// Convert every data point of one metric under its resolved descriptor,
    /// one time series per point, in order.
    pub fn convert_metric(
        &self,
        metric: &Metric,
        descriptor: &MetricDescriptor,
        resource: &Option<MonitoredResourceData>,
    ) -> (r: Vec<TimeSeries>)
        requires
            metric_convertible(*metric),
        ensures
            r.deep_view() == convert_metric_spec(
                *metric,
                descriptor@,
                resource.deep_view(),
                self.add_unique_identifier,
                self.unique_identifier@,
            ),
    {
        let ghost expected = convert_metric_spec(
            *metric,
            descriptor@,
            resource.deep_view(),
            self.add_unique_identifier,
            self.unique_identifier@,
        );
        let mut r: Vec<TimeSeries> = Vec::new();
        match &metric.data {
            AggregationData::Sum { start_time_unix_nanos, time_unix_nanos, points, .. } => {
                let mut i: usize = 0;
                while i < points.len()
                    invariant
                        i <= points@.len(),
                        metric_convertible(*metric),
                        metric.data matches AggregationData::Sum {
                            start_time_unix_nanos: s,
                            time_unix_nanos: t,
                            points: ps,
                            ..
                        } && s == start_time_unix_nanos && t == time_unix_nanos && ps@ == points@,
                        expected.len() == points@.len(),
                        forall|j: int| 0 <= j < points@.len() ==> expected[j]
                            == scalar_time_series_spec(
                            #[trigger] points@[j],
                            Some(*start_time_unix_nanos),
                            *time_unix_nanos,
                            descriptor@,
                            resource.deep_view(),
                            self.add_unique_identifier,
                            self.unique_identifier@,
                        ),
                        r.deep_view() =~= expected.subrange(0, i as int),
                    decreases points@.len() - i,
                {
                    let series = match metric.numeric_kind {
                        NumericKind::Double => sum_convert_f64(
                            &points[i],
                            *start_time_unix_nanos,
                            *time_unix_nanos,
                            descriptor,
                            resource,
                            self.add_unique_identifier,
                            &self.unique_identifier,
                        ),
                        _ => sum_convert_i64(
                            &points[i],
                            *start_time_unix_nanos,
                            *time_unix_nanos,
                            descriptor,
                            resource,
                            self.add_unique_identifier,
                            &self.unique_identifier,
                        ),
                    };
                    let ghost pre = r@;
                    proof {
                        assert(r.deep_view().len() == pre.len());
                    }
                    r.push(series);
                    proof {
                        assert(r.deep_view() =~= expected.subrange(0, i + 1));
                    }
                    i = i + 1;
                }
            },
            AggregationData::Gauge { start_time_unix_nanos, time_unix_nanos, points } => {
                let mut i: usize = 0;
                while i < points.len()
                    invariant
                        i <= points@.len(),
                        metric_convertible(*metric),
                        metric.data matches AggregationData::Gauge {
                            start_time_unix_nanos: s,
                            time_unix_nanos: t,
                            points: ps,
                        } && s == start_time_unix_nanos && t == time_unix_nanos && ps@ == points@,
                        expected.len() == points@.len(),
                        forall|j: int| 0 <= j < points@.len() ==> expected[j]
                            == scalar_time_series_spec(
                            #[trigger] points@[j],
                            *start_time_unix_nanos,
                            *time_unix_nanos,
                            descriptor@,
                            resource.deep_view(),
                            self.add_unique_identifier,
                            self.unique_identifier@,
                        ),
                        r.deep_view() =~= expected.subrange(0, i as int),
                    decreases points@.len() - i,
                {
                    let series = match metric.numeric_kind {
                        NumericKind::Double => gauge_convert_f64(
                            &points[i],
                            *start_time_unix_nanos,
                            *time_unix_nanos,
                            descriptor,
                            resource,
                            self.add_unique_identifier,
                            &self.unique_identifier,
                        ),
                        _ => gauge_convert_i64(
                            &points[i],
                            *start_time_unix_nanos,
                            *time_unix_nanos,
                            descriptor,
                            resource,
                            self.add_unique_identifier,
                            &self.unique_identifier,
                        ),
                    };
                    let ghost pre = r@;
                    proof {
                        assert(r.deep_view().len() == pre.len());
                    }
                    r.push(series);
                    proof {
                        assert(r.deep_view() =~= expected.subrange(0, i + 1));
                    }
                    i = i + 1;
                }
            },
            AggregationData::Histogram { start_time_unix_nanos, time_unix_nanos, points } => {
                let mut i: usize = 0;
                while i < points.len()
                    invariant
                        i <= points@.len(),
                        metric_convertible(*metric),
                        metric.data matches AggregationData::Histogram {
                            start_time_unix_nanos: s,
                            time_unix_nanos: t,
                            points: ps,
                        } && s == start_time_unix_nanos && t == time_unix_nanos && ps@ == points@,
                        expected.len() == points@.len(),
                        forall|j: int| 0 <= j < points@.len() ==> expected[j]
                            == histogram_time_series_spec(
                            #[trigger] points@[j],
                            *start_time_unix_nanos,
                            *time_unix_nanos,
                            descriptor@,
                            resource.deep_view(),
                            self.add_unique_identifier,
                            self.unique_identifier@,
                        ),
                        r.deep_view() =~= expected.subrange(0, i as int),
                    decreases points@.len() - i,
                {
                    let series = convert(
                        &points[i],
                        *start_time_unix_nanos,
                        *time_unix_nanos,
                        descriptor,
                        resource,
                        self.add_unique_identifier,
                        &self.unique_identifier,
                    );
                    let ghost pre = r@;
                    proof {
                        assert(r.deep_view().len() == pre.len());
                    }
                    r.push(series);
                    proof {
                        assert(r.deep_view() =~= expected.subrange(0, i + 1));
                    }
                    i = i + 1;
                }
            },
            AggregationData::ExponentialHistogram {
                start_time_unix_nanos,
                time_unix_nanos,
                points,
            } => {
                let mut i: usize = 0;
                while i < points.len()
                    invariant
                        i <= points@.len(),
                        metric_convertible(*metric),
                        metric.data matches AggregationData::ExponentialHistogram {
                            start_time_unix_nanos: s,
                            time_unix_nanos: t,
                            points: ps,
                        } && s == start_time_unix_nanos && t == time_unix_nanos && ps@ == points@,
                        expected.len() == points@.len(),
                        forall|j: int| 0 <= j < points@.len() ==> expected[j]
                            == exponential_time_series_spec(
                            #[trigger] points@[j],
                            *start_time_unix_nanos,
                            *time_unix_nanos,
                            descriptor@,
                            resource.deep_view(),
                            self.add_unique_identifier,
                            self.unique_identifier@,
                        ),
                        r.deep_view() =~= expected.subrange(0, i as int),
                    decreases points@.len() - i,
                {
                    let series = convert_exponential(
                        &points[i],
                        *start_time_unix_nanos,
                        *time_unix_nanos,
                        descriptor,
                        resource,
                        self.add_unique_identifier,
                        &self.unique_identifier,
                    );
                    let ghost pre = r@;
                    proof {
                        assert(r.deep_view().len() == pre.len());
                    }
                    r.push(series);
                    proof {
                        assert(r.deep_view() =~= expected.subrange(0, i + 1));
                    }
                    i = i + 1;
                }
            },
        }
        proof {
            assert(expected.subrange(0, expected.len() as int) =~= expected);
        }
        r
    }

    /// Convert a whole snapshot given the resolution result of each metric,
    /// in order: a metric whose descriptor could not be resolved contributes
    /// nothing; every other metric contributes one series per data point.
    pub fn convert_snapshot(
        &self,
        metrics: &Vec<Metric>,
        descriptors: &Vec<Option<MetricDescriptor>>,
        resource: &Option<MonitoredResourceData>,
    ) -> (r: Vec<TimeSeries>)
        requires
            metrics@.len() == descriptors@.len(),
            forall|i: int| 0 <= i < metrics@.len() && descriptors@[i] is Some
                ==> metric_convertible(#[trigger] metrics@[i]),
        ensures
            r.deep_view() == snapshot_series_spec(
                metrics@,
                descriptors.deep_view(),
                resource.deep_view(),
                self.add_unique_identifier,
                self.unique_identifier@,
            ),
    {
        let mut r: Vec<TimeSeries> = Vec::new();
        let mut i: usize = 0;
        while i < metrics.len()
            invariant
                i <= metrics@.len(),
                metrics@.len() == descriptors@.len(),
                forall|j: int| 0 <= j < metrics@.len() && descriptors@[j] is Some
                    ==> metric_convertible(#[trigger] metrics@[j]),
                r.deep_view() =~= snapshot_series_spec(
                    metrics@.subrange(0, i as int),
                    descriptors.deep_view().subrange(0, i as int),
                    resource.deep_view(),
                    self.add_unique_identifier,
                    self.unique_identifier@,
                ),
            decreases metrics@.len() - i,
        {
            proof {
                assert(metrics@.subrange(0, i + 1).drop_last() =~= metrics@.subrange(0, i as int));
                assert(descriptors.deep_view().subrange(0, i + 1).drop_last()
                    =~= descriptors.deep_view().subrange(0, i as int));
                assert(metrics@.subrange(0, i + 1).last() == metrics@[i as int]);
                assert(descriptors.deep_view().subrange(0, i + 1).last()
                    == descriptors.deep_view()[i as int]);
            }
            match &descriptors[i] {
                Some(descriptor) => {
                    let mut series = self.convert_metric(&metrics[i], descriptor, resource);
                    let ghost pre = r@;
                    let ghost series_view = series.deep_view();
                    proof {
                        assert(r.deep_view().len() == pre.len());
                        assert(descriptors.deep_view()[i as int] == Some(descriptor@));
                    }
                    r.append(&mut series);
                    proof {
                        assert(r.deep_view() =~= snapshot_series_spec(
                            metrics@.subrange(0, i + 1),
                            descriptors.deep_view().subrange(0, i + 1),
                            resource.deep_view(),
                            self.add_unique_identifier,
                            self.unique_identifier@,
                        ));
                    }
                },
                None => {
                    proof {
                        assert(descriptors.deep_view()[i as int] is None);
                        assert(r.deep_view() =~= snapshot_series_spec(
                            metrics@.subrange(0, i + 1),
                            descriptors.deep_view().subrange(0, i + 1),
                            resource.deep_view(),
                            self.add_unique_identifier,
                            self.unique_identifier@,
                        ));
                    }
                },
            }
            i = i + 1;
        }
        proof {
            assert(metrics@.subrange(0, metrics@.len() as int) =~= metrics@);
            assert(descriptors.deep_view().subrange(0, descriptors.deep_view().len() as int)
                =~= descriptors.deep_view());
        }
        r
    }
}

/// Whether a metric can be converted: its timestamps fit the representable
/// range, every point value carries the metric's numeric kind, and the
/// exponential reconstruction's arithmetic fits the machine types.
pub open spec fn metric_convertible(metric: Metric) -> bool {
    match metric.data {
        AggregationData::Sum { start_time_unix_nanos, time_unix_nanos, points, .. } => {
            &&& valid_unix_nanos(start_time_unix_nanos)
            &&& valid_unix_nanos(time_unix_nanos)
            &&& forall|i: int| 0 <= i < points@.len() ==> (#[trigger] points@[i]).value.matches_kind(
                metric.numeric_kind,
            )
        },
        AggregationData::Gauge { start_time_unix_nanos, time_unix_nanos, points } => {
            &&& (start_time_unix_nanos matches Some(n) ==> valid_unix_nanos(n))
            &&& valid_unix_nanos(time_unix_nanos)
            &&& forall|i: int| 0 <= i < points@.len() ==> (#[trigger] points@[i]).value.matches_kind(
                metric.numeric_kind,
            )
        },
        AggregationData::Histogram { start_time_unix_nanos, time_unix_nanos, .. } => {
            &&& valid_unix_nanos(start_time_unix_nanos)
            &&& valid_unix_nanos(time_unix_nanos)
        },
        AggregationData::ExponentialHistogram {
            start_time_unix_nanos,
            time_unix_nanos,
            points,
        } => {
            &&& valid_unix_nanos(start_time_unix_nanos)
            &&& valid_unix_nanos(time_unix_nanos)
            &&& forall|i: int| 0 <= i < points@.len() ==> (#[trigger] points@[i]).zero_count
                + sum_of_counts(points@[i].negative.counts@) <= u64::MAX
            &&& forall|i: int| 0 <= i < points@.len()
                ==> (#[trigger] points@[i]).positive.counts@.len() <= i32::MAX
        },
    }
}

/// The time series one metric's data points produce, in order.
pub open spec fn convert_metric_spec(
    metric: Metric,
    descriptor: MetricDescriptorV,
    resource: Option<MonitoredResourceDataV>,
    add_unique_identifier: bool,
    unique_identifier: Seq<char>,
) -> Seq<TimeSeriesV> {
    match metric.data {
        AggregationData::Sum { start_time_unix_nanos, time_unix_nanos, points, .. } => points@
            .map_values(
            |p: ScalarPoint| scalar_time_series_spec(
                p,
                Some(start_time_unix_nanos),
                time_unix_nanos,
                descriptor,
                resource,
                add_unique_identifier,
                unique_identifier,
            ),
        ),
        AggregationData::Gauge { start_time_unix_nanos, time_unix_nanos, points } => points@
            .map_values(
            |p: ScalarPoint| scalar_time_series_spec(
                p,
                start_time_unix_nanos,
                time_unix_nanos,
                descriptor,
                resource,
                add_unique_identifier,
                unique_identifier,
            ),
        ),
        AggregationData::Histogram { start_time_unix_nanos, time_unix_nanos, points } => points@
            .map_values(
            |p: HistogramPoint| histogram_time_series_spec(
                p,
                start_time_unix_nanos,
                time_unix_nanos,
                descriptor,
                resource,
                add_unique_identifier,
                unique_identifier,
            ),
        ),
        AggregationData::ExponentialHistogram {
            start_time_unix_nanos,
            time_unix_nanos,
            points,
        } => points@.map_values(
            |p: ExponentialHistogramPoint| exponential_time_series_spec(
                p,
                start_time_unix_nanos,
                time_unix_nanos,
                descriptor,
                resource,
                add_unique_identifier,
                unique_identifier,
            ),
        ),
    }
}

/// The outcome the remote service reports for one chunk submission.
#[derive(Clone, Copy, PartialEq, Eq, Structural, Debug)]
pub enum SubmitOutcome {
    /// The chunk was written.
    Submitted,
    /// The caller lacks the monitoring-writer permission.
    PermissionDenied,
    /// Any other error.
    OtherError,
}

/// What the submission loop does after one chunk.
#[derive(Clone, Copy, PartialEq, Eq, Structural, Debug)]
pub enum SubmitAction {
    /// Go on with the next chunk. After any error but permission denial the
    /// failed chunk is dropped, not retried, and the loop goes on.
    NextChunk,
    /// Abandon the remaining chunks of this cycle.
    AbortRemaining,
}

/// Decide how the submission loop goes on after one chunk: permission denial
/// abandons the remaining chunks of the cycle; success, and any other error
/// — the chunk is dropped, never retried within the cycle — go on with the
/// next chunk.
pub fn apply_submit_outcome(outcome: SubmitOutcome) -> (r: SubmitAction)
    ensures
        r == SubmitAction::AbortRemaining <==> outcome == SubmitOutcome::PermissionDenied,
{
    match outcome {
        SubmitOutcome::PermissionDenied => SubmitAction::AbortRemaining,
        SubmitOutcome::Submitted => SubmitAction::NextChunk,
        SubmitOutcome::OtherError => SubmitAction::NextChunk,
    }
}

/// The largest number of time series one remote write may carry: the
/// backend's documented per-request maximum, never exceeded.
pub const MAX_SERIES_PER_REQUEST: usize = 200;

/// The partition of a series sequence into consecutive chunks of at most
/// `size` elements; every chunk but the last holds exactly `size`.
pub open spec fn chunks_of(s: Seq<TimeSeriesV>, size: int) -> Seq<Seq<TimeSeriesV>>
    decreases s.len(),
    when size > 0
{
    if s.len() == 0 {
        Seq::empty()
    } else if s.len() <= size {
        seq![s]
    } else {
        seq![s.subrange(0, size)] + chunks_of(s.subrange(size, s.len() as int), size)
    }
}

/// Partition the produced series into submission chunks of at most
/// [`MAX_SERIES_PER_REQUEST`] series each, preserving their order.
pub fn chunk_series(series: Vec<TimeSeries>) -> (r: Vec<Vec<TimeSeries>>)
    ensures
        r.deep_view() == chunks_of(series.deep_view(), MAX_SERIES_PER_REQUEST as int),
{
    let ghost full = series.deep_view();
    let mut chunks: Vec<Vec<TimeSeries>> = Vec::new();
    let mut rest = series;
    proof {
        assert(chunks.deep_view() =~= Seq::<Seq<TimeSeriesV>>::empty());
        assert(chunks.deep_view() + chunks_of(rest.deep_view(), MAX_SERIES_PER_REQUEST as int)
            =~= chunks_of(full, MAX_SERIES_PER_REQUEST as int));
    }
    while rest.len() > MAX_SERIES_PER_REQUEST
        invariant
            chunks.deep_view() + chunks_of(rest.deep_view(), MAX_SERIES_PER_REQUEST as int)
                =~= chunks_of(full, MAX_SERIES_PER_REQUEST as int),
        decreases rest@.len(),
    {
        let ghost rest_pre = rest.deep_view();
        let ghost chunks_pre = chunks.deep_view();
        let tail = rest.split_off(MAX_SERIES_PER_REQUEST);
        proof {
            assert(rest.deep_view() =~= rest_pre.subrange(0, MAX_SERIES_PER_REQUEST as int));
            assert(tail.deep_view() =~= rest_pre.subrange(
                MAX_SERIES_PER_REQUEST as int,
                rest_pre.len() as int,
            ));
        }
        chunks.push(rest);
        rest = tail;
        proof {
            assert(chunks.deep_view() =~= chunks_pre.push(
                rest_pre.subrange(0, MAX_SERIES_PER_REQUEST as int),
            ));
            assert(chunks_of(rest_pre, MAX_SERIES_PER_REQUEST as int) =~= seq![
                rest_pre.subrange(0, MAX_SERIES_PER_REQUEST as int),
            ] + chunks_of(rest.deep_view(), MAX_SERIES_PER_REQUEST as int));
            assert(chunks.deep_view() + chunks_of(
                rest.deep_view(),
                MAX_SERIES_PER_REQUEST as int,
            ) =~= chunks_of(full, MAX_SERIES_PER_REQUEST as int));
        }
    }
    if rest.len() > 0 {
        let ghost chunks_pre = chunks.deep_view();
        let ghost rest_view = rest.deep_view();
        chunks.push(rest);
        proof {
            assert(chunks_of(rest_view, MAX_SERIES_PER_REQUEST as int) =~= seq![rest_view]);
            assert(chunks.deep_view() =~= chunks_pre.push(rest_view));
            assert(chunks.deep_view() =~= chunks_of(full, MAX_SERIES_PER_REQUEST as int));
        }
    } else {
        proof {
            assert(chunks_of(rest.deep_view(), MAX_SERIES_PER_REQUEST as int)
                =~= Seq::<Seq<TimeSeriesV>>::empty());
            assert(chunks.deep_view() =~= chunks_of(full, MAX_SERIES_PER_REQUEST as int));
        }
    }
    chunks
}

/// How a series sequence chunks: the number of chunks is the length divided
/// by the chunk size, rounded up; every chunk is the corresponding
/// consecutive slice, so every chunk but the last holds exactly the chunk
/// size and none exceeds it.
pub proof fn lemma_chunks_of_sizes(s: Seq<TimeSeriesV>)
    ensures
        chunks_of(s, MAX_SERIES_PER_REQUEST as int).len() == (s.len() + MAX_SERIES_PER_REQUEST
            - 1) as int / MAX_SERIES_PER_REQUEST as int,
        forall|i: int| 0 <= i < chunks_of(s, MAX_SERIES_PER_REQUEST as int).len()
            ==> #[trigger] chunks_of(s, MAX_SERIES_PER_REQUEST as int)[i] == s.subrange(
            i * MAX_SERIES_PER_REQUEST,
            if (i + 1) * MAX_SERIES_PER_REQUEST <= s.len() {
                (i + 1) * MAX_SERIES_PER_REQUEST as int
            } else {
                s.len() as int
            },
        ),
    decreases s.len(),
{
    let size = MAX_SERIES_PER_REQUEST as int;
    let r = chunks_of(s, size);
    if s.len() == 0 {
    } else if s.len() <= size {
        assert(r == seq![s]);
        assert(r[0] == s);
        assert(s.subrange(0, s.len() as int) =~= s);
    } else {
        let rest = s.subrange(size, s.len() as int);
        lemma_chunks_of_sizes(rest);
        assert(r == seq![s.subrange(0, size)] + chunks_of(rest, size));
        assert(r[0] == s.subrange(0, size));
        assert forall|i: int| 0 < i < r.len() implies #[trigger] r[i] == s.subrange(
            i * size,
            if (i + 1) * size <= s.len() {
                (i + 1) * size
            } else {
                s.len() as int
            },
        ) by {
            assert(r[i] == chunks_of(rest, size)[i - 1]);
            assert(chunks_of(rest, size)[i - 1] == rest.subrange(
                (i - 1) * size,
                if i * size <= rest.len() {
                    i * size
                } else {
                    rest.len() as int
                },
            ));
            assert((i - 1) * size == i * size - size) by (nonlinear_arith);
            assert(i * size == (i + 1) * size - size) by (nonlinear_arith);
            assert(rest.subrange(
                (i - 1) * size,
                if i * size <= rest.len() {
                    i * size
                } else {
                    rest.len() as int
                },
            ) =~= s.subrange(
                i * size,
                if (i + 1) * size <= s.len() {
                    (i + 1) * size
                } else {
                    s.len() as int
                },
            ));
        }
    }
}

/// Chunking loses and duplicates nothing: the chunks concatenate back to the
/// original series sequence, in order.
pub proof fn lemma_chunks_of_flatten(s: Seq<TimeSeriesV>)
    ensures
        chunks_of(s, MAX_SERIES_PER_REQUEST as int).flatten() == s,
    decreases s.len(),
{
    let size = MAX_SERIES_PER_REQUEST as int;
    let r = chunks_of(s, size);
    if s.len() == 0 {
        assert(r.flatten() =~= s);
    } else if s.len() <= size {
        assert(r == seq![s]);
        assert(r.first() == s);
        assert(r.drop_first() =~= Seq::<Seq<TimeSeriesV>>::empty());
        assert(Seq::<Seq<TimeSeriesV>>::empty().flatten() == Seq::<TimeSeriesV>::empty());
        assert(r.flatten() == s + Seq::<TimeSeriesV>::empty());
        assert(s + Seq::<TimeSeriesV>::empty() =~= s);
    } else {
        let rest = s.subrange(size, s.len() as int);
        lemma_chunks_of_flatten(rest);
        assert(r.first() == s.subrange(0, size));
        assert(r.drop_first() =~= chunks_of(rest, size));
        assert(r.flatten() == s.subrange(0, size) + chunks_of(rest, size).flatten());
        assert(s.subrange(0, size) + rest =~= s);
    }
}

/// The series a snapshot produces given each metric's resolved descriptor:
/// the concatenation, in order, of the series of every metric whose
/// descriptor was resolved.
pub open spec fn snapshot_series_spec(
    metrics: Seq<Metric>,
    descriptors: Seq<Option<MetricDescriptorV>>,
    resource: Option<MonitoredResourceDataV>,
    add_unique_identifier: bool,
    unique_identifier: Seq<char>,
) -> Seq<TimeSeriesV>
    decreases metrics.len(),
{
    if metrics.len() == 0 {
        Seq::empty()
    } else {
        snapshot_series_spec(
            metrics.drop_last(),
            descriptors.drop_last(),
            resource,
            add_unique_identifier,
            unique_identifier,
        ) + match descriptors.last() {
            Some(d) => convert_metric_spec(
                metrics.last(),
                d,
                resource,
                add_unique_identifier,
                unique_identifier,
            ),
            None => Seq::empty(),
        }
    }
}

} // verus!
