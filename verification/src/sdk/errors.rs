use vstd::prelude::*;

use crate::engine::error::EngineError;
use crate::model::run::RunStatus;
use vstd::string::StringExecFns;

verus! {

/// The Python exception class an engine failure is raised as.
#[derive(Debug, Clone, Copy, PartialEq, Eq, Structural)]
pub enum ExceptionKind {
    PulseOn,
    RunAlreadyExists,
    RunAlreadyActive,
    RunClosed,
    InvalidRunState,
    Storage,
    MetricQueueFull,
    MetricWriterFailed,
    MetricDrainTimeout,
    MetricFlush,
    MetricFlushTimeout,
    ClientClosed,
}

/// Which exception class each engine failure maps to. Storage-engine, I/O
/// and lookup failures are storage errors; failures without a class of their
/// own are raised as the base `PulseOnError`.
pub open spec fn exception_kind_of(error: EngineError) -> ExceptionKind {
    match error {
        EngineError::RunAlreadyExists { .. } => ExceptionKind::RunAlreadyExists,
        EngineError::RunAlreadyActive { .. } => ExceptionKind::RunAlreadyActive,
        EngineError::RunClosed { .. } => ExceptionKind::RunClosed,
        EngineError::InvalidRunTransition { .. } => ExceptionKind::InvalidRunState,
        EngineError::DuckDb { .. } => ExceptionKind::Storage,
        EngineError::Io { .. } => ExceptionKind::Storage,
        EngineError::ProjectAlreadyExists { .. } => ExceptionKind::Storage,
        EngineError::ProjectNotFound { .. } => ExceptionKind::Storage,
        EngineError::RunNotFound { .. } => ExceptionKind::Storage,
        EngineError::LttbExtensionUnavailable { .. } => ExceptionKind::Storage,
        EngineError::Storage { .. } => ExceptionKind::Storage,
        EngineError::StorageDuckDb { .. } => ExceptionKind::Storage,
        EngineError::MetricQueueFull => ExceptionKind::MetricQueueFull,
        EngineError::MetricWriterFailed { .. } => ExceptionKind::MetricWriterFailed,
        EngineError::MetricDrainTimeout => ExceptionKind::MetricDrainTimeout,
        EngineError::MetricFlush { .. } => ExceptionKind::MetricFlush,
        EngineError::MetricFlushTimeout => ExceptionKind::MetricFlushTimeout,
        EngineError::ClientClosed => ExceptionKind::ClientClosed,
        _ => ExceptionKind::PulseOn,
    }
}

/// Classifies an engine failure for the Python API.
pub fn exception_kind(error: &EngineError) -> (kind: ExceptionKind)
    ensures
        kind == exception_kind_of(*error),
{
    match error {
        EngineError::RunAlreadyExists { .. } => ExceptionKind::RunAlreadyExists,
        EngineError::RunAlreadyActive { .. } => ExceptionKind::RunAlreadyActive,
        EngineError::RunClosed { .. } => ExceptionKind::RunClosed,
        EngineError::InvalidRunTransition { .. } => ExceptionKind::InvalidRunState,
        EngineError::DuckDb { .. }
        | EngineError::Io { .. }
        | EngineError::ProjectAlreadyExists { .. }
        | EngineError::ProjectNotFound { .. }
        | EngineError::RunNotFound { .. }
        | EngineError::LttbExtensionUnavailable { .. }
        | EngineError::Storage { .. }
        | EngineError::StorageDuckDb { .. } => ExceptionKind::Storage,
        EngineError::MetricQueryMaxPointsTooLarge { .. } => ExceptionKind::PulseOn,
        EngineError::MetricQueueFull => ExceptionKind::MetricQueueFull,
        EngineError::MetricWriterFailed { .. } => ExceptionKind::MetricWriterFailed,
        EngineError::MetricDrainTimeout => ExceptionKind::MetricDrainTimeout,
        EngineError::MetricFlush { .. } => ExceptionKind::MetricFlush,
        EngineError::MetricFlushTimeout => ExceptionKind::MetricFlushTimeout,
        EngineError::ClientClosed => ExceptionKind::ClientClosed,
        _ => ExceptionKind::PulseOn,
    }
}

/// The status text the Python `Run.status` property reports.
pub open spec fn status_text_of(status: RunStatus) -> Seq<char> {
    match status {
        RunStatus::Running => "running"@,
        RunStatus::Finished => "finished"@,
        RunStatus::Failed => "failed"@,
    }
}

/// Renders a run status for the Python API.
pub fn status_as_string(status: RunStatus) -> (text: String)
    ensures
        text@ == status_text_of(status),
{
    match status {
        RunStatus::Running => String::from_str("running"),
        RunStatus::Finished => String::from_str("finished"),
        RunStatus::Failed => String::from_str("failed"),
    }
}

} // verus!
