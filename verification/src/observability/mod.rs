//! Structured log records and operational metrics.

pub mod logging;
pub mod metrics;

pub use logging::{
    current_logging_level, error_code_from_display, init_logging, LogLevel, LoggingConfig, LoggingState, StructuredField,
    StructuredLogEvent,
};
pub use metrics::{
    record_metric, reset_metrics_for_test, snapshot_metrics, MetricEvent, MetricRegistry,
    MetricSnapshot,
};
