use vstd::prelude::*;

use crate::engine::error::EngineError;
use crate::engine::time::{chrono_millis_in_range, timestamp_from_millis, Timestamp};
use crate::model::run::{ProjectId, Run, RunId, RunStatus};
use crate::text::text_equals;

verus! {

/// The stored text of a run status.
pub open spec fn status_text(status: RunStatus) -> Seq<char> {
    match status {
        RunStatus::Running => "running"@,
        RunStatus::Finished => "finished"@,
        RunStatus::Failed => "failed"@,
    }
}

/// The run status a stored text denotes, if any.
pub open spec fn parse_status(text: Seq<char>) -> Option<RunStatus> {
    if text == "running"@ {
        Some(RunStatus::Running)
    } else if text == "finished"@ {
        Some(RunStatus::Finished)
    } else if text == "failed"@ {
        Some(RunStatus::Failed)
    } else {
        None
    }
}

/// A run row as the catalog stores it.
pub struct StoredRun {
    pub run_id: String,
    pub project_id: String,
    pub name: String,
    pub status: String,
    pub created_at_millis: i64,
    pub started_at_millis: i64,
    pub finished_at_millis: Option<i64>,
}

/// Whether every field of a stored run converts: a known status and
/// representable timestamps.
pub open spec fn stored_run_valid(row: StoredRun) -> bool {
    &&& parse_status(row.status@) is Some
    &&& chrono_millis_in_range(row.created_at_millis)
    &&& chrono_millis_in_range(row.started_at_millis)
    &&& match row.finished_at_millis {
        Some(m) => chrono_millis_in_range(m),
        None => true,
    }
}

/// Whether `error` is the first failure, in field order, of converting `row`.
pub open spec fn stored_run_error(row: StoredRun, error: EngineError) -> bool {
    if parse_status(row.status@) is None {
        error matches EngineError::InvalidRunStatus { status } && status@ == row.status@
    } else if !chrono_millis_in_range(row.created_at_millis) {
        error == (EngineError::InvalidTimestamp { field: "created_at", millis: row.created_at_millis })
    } else if !chrono_millis_in_range(row.started_at_millis) {
        error == (EngineError::InvalidTimestamp { field: "started_at", millis: row.started_at_millis })
    } else {
        match row.finished_at_millis {
            Some(m) => !chrono_millis_in_range(m) && error == (EngineError::InvalidTimestamp {
                field: "finished_at",
                millis: m,
            }),
            None => false,
        }
    }
}

impl StoredRun {
    /// Converts a stored row into a run, validating its status and timestamps.
    pub fn into_run(self) -> (result: Result<Run, EngineError>)
        ensures
            match result {
                Ok(run) => {
                    &&& stored_run_valid(self)
                    &&& run.run_id@ == self.run_id@
                    &&& run.project_id@ == self.project_id@
                    &&& run.name@ == self.name@
                    &&& parse_status(self.status@) == Some(run.status)
                    &&& run.created_at@ == self.created_at_millis
                    &&& run.started_at@ == self.started_at_millis
                    &&& match self.finished_at_millis {
                        Some(m) => run.finished_at matches Some(t) && t@ == m,
                        None => run.finished_at is None,
                    }
                },
                Err(error) => !stored_run_valid(self) && stored_run_error(self, error),
            },
    {
        let ghost row = self;
        let status = run_status_from_str(self.status.as_str())?;
        let created_at = timestamp_from_millis("created_at", self.created_at_millis)?;
        let started_at = timestamp_from_millis("started_at", self.started_at_millis)?;
        let finished_at = match self.finished_at_millis {
            Some(millis) => Some(timestamp_from_millis("finished_at", millis)?),
            None => None,
        };
        Ok(Run {
            run_id: RunId::from_owned(self.run_id),
            project_id: ProjectId::from_owned(self.project_id),
            name: self.name,
            status,
            created_at,
            started_at,
            finished_at,
        })
    }
}

/// The run a lookup by id found: no row is `RunNotFound`; a row is converted
/// as `into_run` does.
pub fn run_from_lookup(run_id: &RunId, row: Option<StoredRun>) -> (result: Result<Run, EngineError>)
    ensures
        match row {
            None => result matches Err(EngineError::RunNotFound { run_id: id }) && id@ == run_id@,
            Some(stored) => match result {
                Ok(run) => stored_run_valid(stored) && run.run_id@ == stored.run_id@
                    && run.project_id@ == stored.project_id@ && run.name@ == stored.name@
                    && parse_status(stored.status@) == Some(run.status) && run.created_at@
                    == stored.created_at_millis && run.started_at@ == stored.started_at_millis
                    && match stored.finished_at_millis {
                    Some(m) => run.finished_at matches Some(t) && t@ == m,
                    None => run.finished_at is None,
                },
                Err(error) => !stored_run_valid(stored) && stored_run_error(stored, error),
            },
        },
{
    match row {
        None => Err(EngineError::RunNotFound { run_id: run_id.as_str().to_owned() }),
        Some(stored) => stored.into_run(),
    }
}

/// A run created now: running, started when it was created, not finished.
pub fn new_running_run(run_id: RunId, project_id: &ProjectId, name: &str, now: Timestamp) -> (run: Run)
    ensures
        run.run_id@ == run_id@,
        run.project_id@ == project_id@,
        run.name@ == name@,
        run.status == RunStatus::Running,
        run.created_at == now,
        run.started_at == now,
        run.finished_at is None,
{
    Run {
        run_id,
        project_id: project_id.clone(),
        name: name.to_owned(),
        status: RunStatus::Running,
        created_at: now,
        started_at: now,
        finished_at: None,
    }
}

/// The stored text of a run status.
pub fn status_as_str(status: RunStatus) -> (text: &'static str)
    ensures
        text@ == status_text(status),
{
    match status {
        RunStatus::Running => "running",
        RunStatus::Finished => "finished",
        RunStatus::Failed => "failed",
    }
}

/// Parses a stored run status, rejecting any text other than the three statuses.
pub fn run_status_from_str(status: &str) -> (result: Result<RunStatus, EngineError>)
    ensures
        match result {
            Ok(parsed) => parse_status(status@) == Some(parsed),
            Err(error) => {
                &&& parse_status(status@) is None
                &&& error matches EngineError::InvalidRunStatus { status: s }
                &&& s@ == status@
            },
        },
{
    if text_equals(status, "running") {
        Ok(RunStatus::Running)
    } else if text_equals(status, "finished") {
        Ok(RunStatus::Finished)
    } else if text_equals(status, "failed") {
        Ok(RunStatus::Failed)
    } else {
        Err(EngineError::InvalidRunStatus { status: status.to_owned() })
    }
}

} // verus!
