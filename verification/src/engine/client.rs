use vstd::prelude::*;

use crate::engine::bootstrap::{basename_text, join_path, path_basename, path_join, pulseon_dir};
use crate::engine::error::EngineError;
use crate::engine::write_rows::{status_as_str, status_text};
use crate::engine::time::{chrono_millis_in_range, timestamp_from_millis};
use crate::model::run::{Project, ProjectId, Run, RunId, RunStatus};
use crate::text::{percent_encode, percent_encoded};
use vstd::string::StringExecFns;

verus! {

/// Whether a character is a lower-case hexadecimal digit.
pub open spec fn is_lower_hex(c: char) -> bool {
    ('0' <= c && c <= '9') || ('a' <= c && c <= 'f')
}

/// The shape of a hyphenated, lower-case version-4 UUID text:
/// `xxxxxxxx-xxxx-4xxx-xxxx-xxxxxxxxxxxx`.
pub open spec fn is_uuid_v4_text(text: Seq<char>) -> bool {
    &&& text.len() == 36
    &&& forall|i: int|
        0 <= i < 36 ==> if i == 8 || i == 13 || i == 18 || i == 23 {
            #[trigger] text[i] == '-'
        } else {
            is_lower_hex(text[i])
        }
    &&& text[14] == '4'
}

/// `uuid::Uuid::new_v4().to_string()`. The value is random; the claim is only
/// its shape: `Display` writes the hyphenated lower-case form, and `new_v4`
/// sets the version nibble to 4.
#[verifier::external_body]
fn random_uuid_text() -> (text: String)
    ensures
        is_uuid_v4_text(text@),
{
    uuid::Uuid::new_v4().to_string()
}

/// The run id to use: the one supplied, or a freshly generated UUID.
pub fn resolve_run_id(run_id: Option<RunId>) -> (resolved: RunId)
    ensures
        match run_id {
            Some(id) => resolved@ == id@,
            None => is_uuid_v4_text(resolved@),
        },
{
    match run_id {
        Some(id) => id,
        None => RunId::from_owned(random_uuid_text()),
    }
}

/// The project id to use: the one supplied, or a freshly generated UUID.
pub fn resolve_project_id(project_id: Option<ProjectId>) -> (resolved: ProjectId)
    ensures
        match project_id {
            Some(id) => resolved@ == id@,
            None => is_uuid_v4_text(resolved@),
        },
{
    match project_id {
        Some(id) => id,
        None => ProjectId::from_owned(random_uuid_text()),
    }
}

/// The stored text of a run status.
pub fn run_status_value(status: RunStatus) -> (text: &'static str)
    ensures
        text@ == status_text(status),
{
    status_as_str(status)
}

/// Whether the lifecycle allows moving a run in `current` to `target`: only a
/// running run may be resumed or finalized.
pub open spec fn transition_allowed(current: RunStatus, target: RunStatus) -> bool {
    current == RunStatus::Running
}

/// Checks a lifecycle transition, naming both statuses when it is refused.
pub fn check_transition(run_id: &RunId, current: RunStatus, target: RunStatus) -> (result: Result<
    (),
    EngineError,
>)
    ensures
        result is Ok <==> current == RunStatus::Running,
        match result {
            Ok(()) => transition_allowed(current, target),
            Err(error) => {
                &&& !transition_allowed(current, target)
                &&& error matches EngineError::InvalidRunTransition { run_id: id, from, to }
                &&& id@ == run_id@ && from@ == status_text(current) && to@ == status_text(target)
            },
        },
{
    match current {
        RunStatus::Running => Ok(()),
        _ => Err(
            EngineError::InvalidRunTransition {
                run_id: run_id.as_str().to_owned(),
                from: run_status_value(current),
                to: run_status_value(target),
            },
        ),
    }
}

/// How a run id lookup bears on creating a run with that id: an existing run
/// is a conflict, a missing one is the go-ahead, any other failure is passed on.
pub fn check_run_absent(run_id: &RunId, lookup: Result<Run, EngineError>) -> (result: Result<
    (),
    EngineError,
>)
    ensures
        match lookup {
            Ok(_) => {
                &&& result matches Err(EngineError::RunAlreadyExists { run_id: id })
                &&& id@ == run_id@
            },
            Err(EngineError::RunNotFound { .. }) => result is Ok,
            Err(error) => result == Err::<(), EngineError>(error),
        },
{
    match lookup {
        Ok(_) => Err(EngineError::RunAlreadyExists { run_id: run_id.as_str().to_owned() }),
        Err(EngineError::RunNotFound { .. }) => Ok(()),
        Err(error) => Err(error),
    }
}

/// Runs are only created or listed in a project that exists.
pub fn require_project(project_id: &ProjectId, exists: bool) -> (result: Result<(), EngineError>)
    ensures
        match result {
            Ok(()) => exists,
            Err(error) => !exists && (error matches EngineError::ProjectNotFound { project_id: id }
                && id@ == project_id@),
        },
{
    if !exists {
        return Err(EngineError::ProjectNotFound { project_id: project_id.as_str().to_owned() });
    }
    Ok(())
}

/// A project is only created under an id that is not taken.
pub fn require_new_project(project_id: &ProjectId, exists: bool) -> (result: Result<(), EngineError>)
    ensures
        match result {
            Ok(()) => !exists,
            Err(error) => exists && (error matches EngineError::ProjectAlreadyExists {
                project_id: id,
            } && id@ == project_id@),
        },
{
    if exists {
        return Err(
            EngineError::ProjectAlreadyExists { project_id: project_id.as_str().to_owned() },
        );
    }
    Ok(())
}

/// The project a lookup by id found: none is `ProjectNotFound`; a stored
/// creation time chrono cannot represent is an invalid timestamp.
pub fn project_from_lookup(project_id: &ProjectId, row: Option<(String, String, i64)>) -> (result:
    Result<Project, EngineError>)
    ensures
        match row {
            None => result matches Err(EngineError::ProjectNotFound { project_id: id })
                && id@ == project_id@,
            Some((id, name, millis)) => if chrono_millis_in_range(millis) {
                result matches Ok(project) && project.project_id@ == id@ && project.name@ == name@
                    && project.created_at@ == millis
            } else {
                result == Err::<Project, EngineError>(
                    EngineError::InvalidTimestamp { field: "created_at", millis },
                )
            },
        },
{
    match row {
        None => Err(EngineError::ProjectNotFound { project_id: project_id.as_str().to_owned() }),
        Some((id, name, millis)) => {
            let created_at = timestamp_from_millis("created_at", millis)?;
            Ok(Project { project_id: ProjectId::from_owned(id), name, created_at })
        },
    }
}

/// How an attempt to take a run's lock file ended.
#[derive(Debug, PartialEq, Eq)]
pub enum LockAttempt {
    Acquired,
    WouldBlock,
    Failed { message: String },
}

/// The outcome of taking a run writer lock: a lock held elsewhere means the
/// run is active in another client; any other failure is a storage error
/// naming the lock file.
pub fn lock_attempt_result(run_id: &RunId, lock_path: &str, attempt: LockAttempt) -> (result: Result<
    (),
    EngineError,
>)
    ensures
        match attempt {
            LockAttempt::Acquired => result is Ok,
            LockAttempt::WouldBlock => result matches Err(EngineError::RunAlreadyActive { run_id: id })
                && id@ == run_id@,
            LockAttempt::Failed { message } => result matches Err(
                EngineError::Storage { operation, name, message: m },
            ) && operation@ == "locking run lock file"@ && name@ == basename_text(lock_path@) && m@
                == message@,
        },
{
    match attempt {
        LockAttempt::Acquired => Ok(()),
        LockAttempt::WouldBlock => Err(EngineError::RunAlreadyActive { run_id: run_id.as_str().to_owned() }),
        LockAttempt::Failed { message } => Err(
            EngineError::Storage {
                operation: "locking run lock file",
                name: path_basename(lock_path),
                message,
            },
        ),
    }
}

/// Whether writer locks are released after a shutdown attempt: always, except
/// when draining timed out and reports may still be written.
pub fn shutdown_releases_writers(result: &Result<(), EngineError>) -> (release: bool)
    ensures
        release == !(result matches Err(EngineError::MetricDrainTimeout)),
{
    match result {
        Err(EngineError::MetricDrainTimeout) => false,
        _ => true,
    }
}

/// Whether a run accepts metric reports: open while running, closing during
/// finalization, terminal afterwards.
#[derive(Clone, Copy, Debug, PartialEq, Eq, Structural)]
pub enum RunAdmission {
    Open,
    Closing,
    Terminal,
}

/// Report admission of one active run.
pub struct ActiveRunAdmission {
    state: RunAdmission,
}

impl ActiveRunAdmission {
    pub closed spec fn spec_state(&self) -> RunAdmission {
        self.state
    }

    /// The admission of a run whose writer lock was just taken.
    pub fn open() -> (admission: ActiveRunAdmission)
        ensures
            admission.spec_state() == RunAdmission::Open,
    {
        ActiveRunAdmission { state: RunAdmission::Open }
    }

    /// The admission of a run that has no active writer here.
    pub fn closed() -> (admission: ActiveRunAdmission)
        ensures
            admission.spec_state() == RunAdmission::Terminal,
    {
        ActiveRunAdmission { state: RunAdmission::Terminal }
    }

    pub fn state(&self) -> (state: RunAdmission)
        ensures
            state == self.spec_state(),
    {
        self.state
    }

    /// Admits a report only while the run is open.
    pub fn check_report_admission(&self, run_id: &RunId) -> (result: Result<(), EngineError>)
        ensures
            match result {
                Ok(()) => self.spec_state() == RunAdmission::Open,
                Err(error) => {
                    &&& self.spec_state() != RunAdmission::Open
                    &&& error matches EngineError::RunClosed { run_id: id }
                    &&& id@ == run_id@
                },
            },
    {
        match self.state {
            RunAdmission::Open => Ok(()),
            _ => Err(EngineError::RunClosed { run_id: run_id.as_str().to_owned() }),
        }
    }

    /// Stops admitting reports while the run is being finalized.
    pub fn close_admission(&mut self)
        ensures
            final(self).spec_state() == RunAdmission::Closing,
    {
        self.state = RunAdmission::Closing;
    }

    /// Admits reports again after a finalization that did not complete.
    pub fn open_admission(&mut self)
        ensures
            final(self).spec_state() == RunAdmission::Open,
    {
        self.state = RunAdmission::Open;
    }

    /// Stops admitting reports for good once the run reached a terminal status.
    pub fn mark_terminal(&mut self)
        ensures
            final(self).spec_state() == RunAdmission::Terminal,
    {
        self.state = RunAdmission::Terminal;
    }

    /// The admission after the finalization drain: a failed drain reopens the
    /// run and passes its error on.
    pub fn after_drain(&mut self, drained: Result<(), EngineError>) -> (result: Result<
        (),
        EngineError,
    >)
        ensures
            result == drained,
            drained is Ok ==> final(self).spec_state() == old(self).spec_state(),
            drained is Err ==> final(self).spec_state() == RunAdmission::Open,
    {
        if drained.is_err() {
            self.open_admission();
        }
        drained
    }

    /// The admission after the status update: the run turns terminal when a
    /// row changed, and is reopened when another writer finalized it first.
    pub fn after_status_update(&mut self, updated_rows: usize) -> (finalized: bool)
        ensures
            finalized == (updated_rows > 0),
            finalized ==> final(self).spec_state() == RunAdmission::Terminal,
            !finalized ==> final(self).spec_state() == RunAdmission::Open,
    {
        if updated_rows > 0 {
            self.mark_terminal();
            true
        } else {
            self.open_admission();
            false
        }
    }
}

/// Percent-encodes a run id for use as one file-name segment.
pub fn percent_encode_path_segment(value: &str) -> (encoded: String)
    ensures
        encoded@ == percent_encoded(value@),
{
    percent_encode(value)
}

/// The directory that holds run writer lock files.
pub open spec fn run_lock_dir(root: Seq<char>) -> Seq<char> {
    path_join(path_join(pulseon_dir(root), "locks"@), "runs"@)
}

/// The lock file of one run: its encoded id with a `.lock` suffix, so that
/// every run id maps to a single file name inside the lock directory.
pub open spec fn run_lock_path(root: Seq<char>, run_id: Seq<char>) -> Seq<char> {
    path_join(run_lock_dir(root), percent_encoded(run_id) + ".lock"@)
}

/// The lock-file directory of a store.
pub fn run_lock_directory(root_path: &str) -> (dir: String)
    ensures
        dir@ == run_lock_dir(root_path@),
{
    let pulseon = join_path(root_path, ".pulseon");
    let locks = join_path(pulseon.as_str(), "locks");
    join_path(locks.as_str(), "runs")
}

/// The lock-file path of one run in a store.
pub fn run_lock_file(root_path: &str, run_id: &RunId) -> (path: String)
    ensures
        path@ == run_lock_path(root_path@, run_id@),
{
    let dir = run_lock_directory(root_path);
    let mut name = percent_encode_path_segment(run_id.as_str());
    name.append(".lock");
    join_path(dir.as_str(), name.as_str())
}

/// Runs with different ids never share a writer lock file.
pub proof fn law_distinct_runs_have_distinct_lock_files(root: Seq<char>, a: Seq<char>, b: Seq<char>)
    requires
        a != b,
    ensures
        run_lock_path(root, a) != run_lock_path(root, b),
{
    reveal_strlit("runs");
    reveal_strlit(".lock");
    let dir = run_lock_dir(root);
    let inner = path_join(pulseon_dir(root), "locks"@);
    assert(dir == path_join(inner, "runs"@));
    assert(dir.len() > 0 && dir.last() == 's');
    let sa = percent_encoded(a) + ".lock"@;
    let sb = percent_encoded(b) + ".lock"@;
    if run_lock_path(root, a) == run_lock_path(root, b) {
        let pa = run_lock_path(root, a);
        assert(pa == dir + seq!['/'] + sa);
        assert(pa == dir + seq!['/'] + sb);
        assert(sa =~= pa.subrange(dir.len() + 1int, pa.len() as int));
        assert(sb =~= pa.subrange(dir.len() + 1int, pa.len() as int));
        assert(percent_encoded(a) =~= sa.subrange(0, sa.len() - 5));
        assert(percent_encoded(b) =~= sb.subrange(0, sb.len() - 5));
        crate::text::lemma_percent_encoded_injective(a, b);
    }
}

/// A run may be resumed or finalized exactly when it is running, whatever the
/// target status; in particular a running run may be resumed.
pub proof fn law_only_running_runs_transition(current: RunStatus, target: RunStatus)
    ensures
        transition_allowed(current, target) <==> current == RunStatus::Running,
{
}

/// A run that finished or failed never moves to another status.
pub proof fn law_terminal_runs_never_transition(current: RunStatus, target: RunStatus)
    requires
        current != RunStatus::Running,
    ensures
        !transition_allowed(current, target),
{
}

} // verus!
