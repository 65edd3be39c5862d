[package]
name = "gcp_metrics_exporter"
version = "0.1.0"
edition = "2021"
publish = false

[dependencies]
rand = "=0.10.3"
google-cloud-monitoring-v3 = "=1.13.0"
google-cloud-api = "=1.7.0"
google-cloud-wkt = "=1.9.0"
google-cloud-gax = "=1.15.0"
opentelemetry = "=0.31.0"
opentelemetry_sdk = "=0.31.0"
opentelemetry_resourcedetector_gcp_rust = "=0.21.0"
tokio = { version = "=1.53.2", features = ["sync", "rt", "macros"] }
tracing = "=0.1.44"
thiserror = "=2.0.21"
