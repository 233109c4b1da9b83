use vstd::prelude::*;

verus! {

/// Failures of native storage operations.
///
/// Storage-engine and I/O failures are carried as rendered messages, so that
/// the value stays independent of the engine that produced it.
#[derive(Debug, PartialEq)]
pub enum EngineError {
    DuckDb { message: String },
    Io { message: String },
    ConnectionLockPoisoned,
    ProjectAlreadyExists { project_id: String },
    ProjectNotFound { project_id: String },
    RunAlreadyExists { run_id: String },
    RunAlreadyActive { run_id: String },
    RunNotFound { run_id: String },
    RunClosed { run_id: String },
    DuplicateRunIdentity { run_id: String },
    InvalidRunTransition { run_id: String, from: &'static str, to: &'static str },
    MetricQueryMaxPointsTooSmall { max_points: usize },
    MetricQueryMaxPointsTooLarge { max_points: usize },
    MetricQueueFull,
    MetricWriterFailed { message: String },
    MetricDrainTimeout,
    MetricFlush { message: String },
    MetricFlushTimeout,
    ClientClosed,
    LttbExtensionUnavailable { message: String },
    InvalidRunStatus { status: String },
    InvalidTimestamp { field: &'static str, millis: i64 },
    Storage { operation: &'static str, name: String, message: String },
    StorageDuckDb { operation: &'static str, name: String, message: String },
}

} // verus!
