//! Translation core of a metrics exporter bridge for Google Cloud Monitoring.
//!
//! The crate turns aggregated metric snapshots (counters, gauges, histograms
//! and exponential histograms over double, signed and unsigned numeric kinds)
//! into the wire-level time-series records that the Cloud Monitoring
//! ingestion API accepts: it normalizes attribute keys into legal label keys,
//! derives metric descriptors, drives a create-once descriptor cache, and
//! partitions the produced series into bounded submission chunks.
//!
//! Network delivery, credential handling and the instrumentation-SDK glue
//! live outside this crate; they exchange plain values with it.

pub use exporter::GCPMetricsExporter;
pub use exporter::GCPMetricsExporterConfig;
pub use exporter::MonitoredResourceDataConfig;

pub mod cache;
pub mod data_point_to_time_series;
pub mod descriptor;
pub mod exporter;
pub mod histogram_data_point_to_time_series;
pub mod labels;
pub mod model;
pub mod series;
pub mod wire;
