use pulseon::engine::comparison::curve_completeness;
use pulseon::engine::client::project_from_lookup;
use pulseon::engine::read_plan::{lttb_not_configured, lttb_source, LttbSource};
use pulseon::engine::bootstrap::{
    attach_ducklake_batch, sql_string_literal, use_catalog_statement, CatalogAdapter,
    CatalogBackend, NativeStorageConfig,
};
use pulseon::engine::client::{
    check_run_absent, check_transition, lock_attempt_result, percent_encode_path_segment,
    require_new_project, require_project, resolve_project_id, resolve_run_id, run_lock_directory,
    run_lock_file, shutdown_releases_writers, ActiveRunAdmission, LockAttempt, RunAdmission,
};
use pulseon::engine::comparison::{
    check_distinct_runs, combined_completeness, comparison_outcome, comparison_preference,
    is_drawable, ComparisonOutcome, ComparisonPreference, EvidenceCompleteness, ObjectiveDirection,
    ValueOrder,
};
use pulseon::engine::error::EngineError;
use pulseon::engine::read_plan::{
    lttb_load_result, lttb_load_statement, query_store_point_limit, query_summaries_sql,
    requested_rows, write_store_read_plan, write_summaries_sql, MetricReadPlan,
};
use pulseon::engine::reporting::{DiagnosticsCounters, SendOutcome};
use pulseon::engine::time::{current_timestamp, timestamp_as_rfc3339, timestamp_from_millis};
use pulseon::engine::write_rows::{
    new_running_run, run_from_lookup, run_status_from_str, status_as_str, StoredRun,
};
use pulseon::model::run::{ProjectId, Run, RunId, RunStatus};

#[test]
fn sql_string_literal_escapes_single_quotes() {
    assert_eq!(sql_string_literal("canary's/data"), "'canary''s/data'");
}

#[test]
fn catalog_adapter_uses_duckdb_default_catalog_filename() {
    let adapter = CatalogAdapter::duckdb();

    assert_eq!(adapter.default_catalog_filename, "catalog.ducklake");
}

#[test]
fn catalog_adapter_builds_ducklake_attach_statement() {
    let adapter = CatalogAdapter::duckdb();
    let statement = adapter.attach_ducklake_statement("catalog.ducklake", "data");

    assert!(statement.contains("ATTACH 'catalog.ducklake' AS dl"));
    assert!(statement.contains("TYPE ducklake"));
    assert!(statement.contains("DATA_PATH 'data'"));
    assert!(statement.contains("METADATA_CATALOG 'pulseon_catalog'"));
}

#[test]
fn catalog_adapter_accepts_s3_data_path() {
    let adapter = CatalogAdapter::duckdb();
    let statement = adapter.attach_ducklake_statement("catalog.ducklake", "s3://bucket/prefix");

    assert!(statement.contains("DATA_PATH 's3://bucket/prefix'"));
}

#[test]
fn percent_encode_path_segment_uses_rfc3986_unreserved_bytes() {
    assert_eq!(
        percent_encode_path_segment("run/space ü._~-"),
        "run%2Fspace%20%C3%BC._~-",
    );
}

#[test]
fn attach_statement_is_exact_for_both_backends() {
    assert_eq!(
        CatalogAdapter::duckdb().attach_ducklake_statement("c.ducklake", "d"),
        "ATTACH 'c.ducklake' AS dl (\n                 TYPE ducklake,\n                 DATA_PATH 'd',\n                 METADATA_CATALOG 'pulseon_catalog'\n             );"
    );
    assert_eq!(
        CatalogAdapter::sqlite().attach_ducklake_statement("c.sqlite", "it's"),
        "ATTACH 'ducklake:sqlite:c.sqlite' AS dl (\n                 DATA_PATH 'it''s',\n                 METADATA_CATALOG 'pulseon_catalog'\n             );"
    );
    let batch = attach_ducklake_batch(CatalogBackend::DuckDb, "c.ducklake", "d");
    assert!(batch.starts_with("INSTALL ducklake;\n         LOAD ducklake;\n         ATTACH 'c.ducklake'"));
    assert_eq!(use_catalog_statement(&CatalogAdapter::sqlite()), "USE pulseon_catalog;");
}

#[test]
fn catalog_backends_are_named_in_lower_case() {
    assert_eq!(CatalogBackend::from_name("duckdb"), Some(CatalogBackend::DuckDb));
    assert_eq!(CatalogBackend::from_name("sqlite"), Some(CatalogBackend::Sqlite));
    assert_eq!(CatalogBackend::from_name("postgres"), None);
}

#[test]
fn storage_paths_default_inside_the_pulseon_directory() {
    let config = NativeStorageConfig::duckdb("/srv/store", None, None);
    assert_eq!(config.catalog_path, "/srv/store/.pulseon/catalog.ducklake");
    assert_eq!(config.data_path, "/srv/store/.pulseon/data");
    let sqlite = NativeStorageConfig::with_backend_and_s3_config(
        CatalogBackend::Sqlite,
        "/srv/store/",
        None,
        Some("s3://bucket/data".to_owned()),
        None,
    );
    assert_eq!(sqlite.catalog_path, "/srv/store/.pulseon/catalog.sqlite");
    assert_eq!(sqlite.data_path, "s3://bucket/data");
}

#[test]
fn run_lock_files_live_under_the_lock_directory() {
    assert_eq!(run_lock_directory("/srv/store"), "/srv/store/.pulseon/locks/runs");
    assert_eq!(
        run_lock_file("/srv/store", &RunId::from_string("a/b")),
        "/srv/store/.pulseon/locks/runs/a%2Fb.lock"
    );
    assert_ne!(
        run_lock_file("/srv", &RunId::from_string("a/b")),
        run_lock_file("/srv", &RunId::from_string("a%2Fb"))
    );
}

#[test]
fn generated_ids_are_hyphenated_version_four_uuids() {
    let id = resolve_run_id(None);
    let text = id.as_str();
    assert_eq!(text.len(), 36);
    assert_eq!(text.as_bytes()[14], b'4');
    for index in [8, 13, 18, 23] {
        assert_eq!(text.as_bytes()[index], b'-');
    }
    assert_ne!(resolve_run_id(None).as_str(), text);
    assert_eq!(resolve_run_id(Some(RunId::from_string("run-1"))).as_str(), "run-1");
    assert_eq!(resolve_project_id(Some(ProjectId::from_string("p"))).as_str(), "p");
    assert_eq!(resolve_project_id(None).as_str().len(), 36);
}

#[test]
fn only_running_runs_transition() {
    let run_id = RunId::from_string("run-1");
    assert!(check_transition(&run_id, RunStatus::Running, RunStatus::Finished).is_ok());
    assert_eq!(
        check_transition(&run_id, RunStatus::Finished, RunStatus::Failed),
        Err(EngineError::InvalidRunTransition {
            run_id: "run-1".to_owned(),
            from: "finished",
            to: "failed",
        })
    );
    assert!(check_transition(&run_id, RunStatus::Failed, RunStatus::Running).is_err());
}

#[test]
fn existing_run_ids_conflict_and_missing_ones_proceed() {
    let run_id = RunId::from_string("run-1");
    assert_eq!(
        check_run_absent(&run_id, Err(EngineError::RunNotFound { run_id: "run-1".to_owned() })),
        Ok(())
    );
    assert_eq!(
        check_run_absent(&run_id, Err(EngineError::ClientClosed)),
        Err(EngineError::ClientClosed)
    );
    let stored = StoredRun {
        run_id: "run-1".to_owned(),
        project_id: "p".to_owned(),
        name: "n".to_owned(),
        status: "running".to_owned(),
        created_at_millis: 0,
        started_at_millis: 0,
        finished_at_millis: None,
    };
    let run = stored.into_run().unwrap();
    assert_eq!(
        check_run_absent(&run_id, Ok(run)),
        Err(EngineError::RunAlreadyExists { run_id: "run-1".to_owned() })
    );
}

#[test]
fn project_checks_report_the_project() {
    let id = ProjectId::from_string("p1");
    assert_eq!(require_project(&id, true), Ok(()));
    assert_eq!(
        require_project(&id, false),
        Err(EngineError::ProjectNotFound { project_id: "p1".to_owned() })
    );
    assert_eq!(require_new_project(&id, false), Ok(()));
    assert_eq!(
        require_new_project(&id, true),
        Err(EngineError::ProjectAlreadyExists { project_id: "p1".to_owned() })
    );
}

#[test]
fn lock_attempts_map_to_engine_errors() {
    let run_id = RunId::from_string("run-1");
    assert_eq!(lock_attempt_result(&run_id, "/x/run-1.lock", LockAttempt::Acquired), Ok(()));
    assert_eq!(
        lock_attempt_result(&run_id, "/x/run-1.lock", LockAttempt::WouldBlock),
        Err(EngineError::RunAlreadyActive { run_id: "run-1".to_owned() })
    );
    assert_eq!(
        lock_attempt_result(
            &run_id,
            "/x/run-1.lock",
            LockAttempt::Failed { message: "denied".to_owned() }
        ),
        Err(EngineError::Storage {
            operation: "locking run lock file",
            name: "run-1.lock".to_owned(),
            message: "denied".to_owned(),
        })
    );
}

#[test]
fn writers_are_kept_only_after_a_drain_timeout() {
    assert!(shutdown_releases_writers(&Ok(())));
    assert!(shutdown_releases_writers(&Err(EngineError::MetricFlushTimeout)));
    assert!(!shutdown_releases_writers(&Err(EngineError::MetricDrainTimeout)));
}

#[test]
fn admission_follows_the_finalization_steps() {
    let run_id = RunId::from_string("run-1");
    let mut admission = ActiveRunAdmission::open();
    assert_eq!(admission.check_report_admission(&run_id), Ok(()));
    admission.close_admission();
    assert_eq!(
        admission.check_report_admission(&run_id),
        Err(EngineError::RunClosed { run_id: "run-1".to_owned() })
    );
    assert_eq!(
        admission.after_drain(Err(EngineError::MetricFlushTimeout)),
        Err(EngineError::MetricFlushTimeout)
    );
    assert_eq!(admission.state(), RunAdmission::Open);
    admission.close_admission();
    assert!(!admission.after_status_update(0));
    assert_eq!(admission.state(), RunAdmission::Open);
    admission.close_admission();
    assert_eq!(admission.after_drain(Ok(())), Ok(()));
    assert!(admission.after_status_update(1));
    assert_eq!(admission.state(), RunAdmission::Terminal);
    assert!(admission.check_report_admission(&run_id).is_err());
    assert_eq!(ActiveRunAdmission::closed().state(), RunAdmission::Terminal);
}

#[test]
fn comparison_outcomes_follow_the_objective_direction() {
    assert_eq!(
        comparison_outcome(ObjectiveDirection::Minimize, ValueOrder::Less),
        ComparisonOutcome::Improved
    );
    assert_eq!(
        comparison_outcome(ObjectiveDirection::Maximize, ValueOrder::Less),
        ComparisonOutcome::Regressed
    );
    assert_eq!(
        comparison_outcome(ObjectiveDirection::Maximize, ValueOrder::Equal),
        ComparisonOutcome::Equal
    );
    assert_eq!(
        comparison_preference(EvidenceCompleteness::Complete, Some(ComparisonOutcome::Improved)),
        ComparisonPreference::Candidate
    );
    assert_eq!(
        comparison_preference(EvidenceCompleteness::Partial, Some(ComparisonOutcome::Improved)),
        ComparisonPreference::Inconclusive
    );
    assert_eq!(
        comparison_preference(EvidenceCompleteness::Complete, None),
        ComparisonPreference::Inconclusive
    );
    assert_eq!(
        combined_completeness(EvidenceCompleteness::Complete, EvidenceCompleteness::Partial),
        EvidenceCompleteness::Partial
    );
    assert!(is_drawable(EvidenceCompleteness::Partial));
    assert!(!is_drawable(EvidenceCompleteness::Unavailable));
}

#[test]
fn a_run_is_not_compared_with_itself() {
    let a = RunId::from_string("a");
    assert_eq!(
        check_distinct_runs(&a, &RunId::from_string("a")),
        Err(EngineError::DuplicateRunIdentity { run_id: "a".to_owned() })
    );
    assert_eq!(check_distinct_runs(&a, &RunId::from_string("b")), Ok(()));
}

#[test]
fn read_plans_choose_full_reads_and_downsampling() {
    assert_eq!(write_store_read_plan(None, 10), Ok(MetricReadPlan::Full));
    assert_eq!(write_store_read_plan(Some(10), 10), Ok(MetricReadPlan::Full));
    assert_eq!(
        write_store_read_plan(Some(10), 11),
        Ok(MetricReadPlan::Downsample { max_points: 10 })
    );
    assert_eq!(
        write_store_read_plan(Some(1 << 63), u64::MAX),
        Err(EngineError::MetricQueryMaxPointsTooLarge { max_points: 1 << 63 })
    );
    assert_eq!(query_store_point_limit(None), Ok(None));
    assert_eq!(query_store_point_limit(Some(2)), Ok(Some(2)));
    assert_eq!(
        query_store_point_limit(Some(1)),
        Err(EngineError::MetricQueryMaxPointsTooSmall { max_points: 1 })
    );
}

#[test]
fn summaries_bind_each_run_to_its_position() {
    assert_eq!(requested_rows(0), "");
    assert_eq!(requested_rows(1), "(?, 0)");
    assert_eq!(requested_rows(12), "(?, 0), (?, 1), (?, 2), (?, 3), (?, 4), (?, 5), (?, 6), (?, 7), (?, 8), (?, 9), (?, 10), (?, 11)");
    let write = write_summaries_sql(2);
    assert!(write.starts_with("WITH requested(run_id, ordinal) AS (VALUES (?, 0), (?, 1))"));
    assert!(write.ends_with("ORDER BY requested.ordinal"));
    assert_eq!(write.matches('?').count(), 3);
    let query = query_summaries_sql(3);
    assert_eq!(query.matches('?').count(), 5);
    assert!(query.ends_with("ORDER BY ordinal"));
}

#[test]
fn lttb_loading_reports_why_it_failed() {
    assert_eq!(lttb_load_statement("/ext/it's.duckdb_extension"), "LOAD '/ext/it''s.duckdb_extension';");
    assert_eq!(lttb_load_result(Ok(()), true, false), Ok(()));
    assert_eq!(
        lttb_load_result(Ok(()), false, true),
        Err(EngineError::LttbExtensionUnavailable {
            message: "LOAD lttb from PULSEON_LTTB_EXTENSION_PATH did not register lttb".to_owned()
        })
    );
    assert_eq!(
        lttb_load_result(Ok(()), false, false),
        Err(EngineError::LttbExtensionUnavailable {
            message: "INSTALL/LOAD lttb did not register lttb".to_owned()
        })
    );
    assert_eq!(
        lttb_load_result(Err("offline".to_owned()), true, false),
        Err(EngineError::LttbExtensionUnavailable { message: "offline".to_owned() })
    );
}

#[test]
fn refused_and_dropped_reports_leave_pending_unchanged() {
    let mut counters = DiagnosticsCounters::new();
    counters.increment_pending();
    assert_eq!(counters.record_send_outcome(SendOutcome::Queued), Ok(()));
    counters.increment_pending();
    assert_eq!(
        counters.record_send_outcome(SendOutcome::QueueFull),
        Err(EngineError::MetricQueueFull)
    );
    counters.increment_pending();
    assert_eq!(counters.record_send_outcome(SendOutcome::Disconnected), Ok(()));
    let diagnostics = counters.snapshot();
    assert_eq!(diagnostics.pending_reports, 1);
    assert_eq!(diagnostics.queue_full_errors, 1);
    assert_eq!(diagnostics.writer_state, "running");
    counters.record_write(Ok(()));
    let diagnostics = counters.snapshot();
    assert_eq!(diagnostics.pending_reports, 0);
    assert_eq!(diagnostics.persisted_reports, 1);
    assert_eq!(diagnostics.writer_state, "drained");
    assert_eq!(diagnostics.last_flush_status, "none");
}

#[test]
fn a_failed_write_marks_the_writer_failed() {
    let mut counters = DiagnosticsCounters::new();
    counters.increment_pending();
    counters.record_write(Err("disk full".to_owned()));
    let diagnostics = counters.snapshot();
    assert_eq!(diagnostics.writer_state, "failed");
    assert_eq!(diagnostics.last_write_error.as_deref(), Some("disk full"));
    assert_eq!(diagnostics.pending_reports, 0);
    let mut closed = DiagnosticsCounters::new();
    closed.finish_shutdown(true);
    assert_eq!(closed.snapshot().writer_state, "closed");
    let mut kept = DiagnosticsCounters::new();
    kept.finish_shutdown(false);
    assert_eq!(kept.snapshot().writer_state, "drained");
}

#[test]
fn diagnostics_reports_drained_when_no_reports_are_pending() {
    let diagnostics = DiagnosticsCounters::new().snapshot();

    assert_eq!(diagnostics.pending_reports, 0);
    assert_eq!(diagnostics.writer_state, "drained");
    assert_eq!(diagnostics.last_write_error, None);
    assert_eq!(diagnostics.last_flush_status, "none");
    assert_eq!(diagnostics.last_flush_run_id, None);
    assert_eq!(diagnostics.last_flush_error, None);
}

#[test]
fn stored_rows_convert_or_name_the_bad_field() {
    let row = |status: &str, created: i64, finished: Option<i64>| StoredRun {
        run_id: "run-1".to_owned(),
        project_id: "p".to_owned(),
        name: "baseline".to_owned(),
        status: status.to_owned(),
        created_at_millis: created,
        started_at_millis: 1_000,
        finished_at_millis: finished,
    };
    let run: Run = row("finished", 1_000, Some(2_000)).into_run().unwrap();
    assert_eq!(run.status, RunStatus::Finished);
    assert_eq!(run.finished_at.map(|t| t.millis()), Some(2_000));
    assert_eq!(
        row("paused", 1_000, None).into_run().err(),
        Some(EngineError::InvalidRunStatus { status: "paused".to_owned() })
    );
    assert_eq!(
        row("running", i64::MAX, None).into_run().err(),
        Some(EngineError::InvalidTimestamp { field: "created_at", millis: i64::MAX })
    );
    assert_eq!(
        run_from_lookup(&RunId::from_string("gone"), None).err(),
        Some(EngineError::RunNotFound { run_id: "gone".to_owned() })
    );
    assert_eq!(run_status_from_str("failed"), Ok(RunStatus::Failed));
    assert_eq!(status_as_str(RunStatus::Running), "running");
}

#[test]
fn new_runs_start_running_when_created() {
    let now = timestamp_from_millis("created_at", 1_700_000_000_000).unwrap();
    let run = new_running_run(RunId::from_string("r"), &ProjectId::from_string("p"), "n", now);
    assert_eq!(run.status, RunStatus::Running);
    assert_eq!(run.created_at, run.started_at);
    assert_eq!(run.finished_at, None);
    assert_eq!(timestamp_as_rfc3339(&now), "2023-11-14T22:13:20+00:00");
    assert!(current_timestamp("now").unwrap().millis() > 1_700_000_000_000);
}

#[test]
fn lttb_comes_from_a_local_build_or_an_allowed_download() {
    assert_eq!(
        lttb_source(Some("/ext/lttb.duckdb_extension".to_owned()), Some("1")),
        LttbSource::ExtensionPath("/ext/lttb.duckdb_extension".to_owned())
    );
    assert_eq!(lttb_source(None, Some("1")), LttbSource::Community);
    assert_eq!(lttb_source(None, Some("true")), LttbSource::NotConfigured);
    assert_eq!(lttb_source(None, None), LttbSource::NotConfigured);
    assert!(matches!(
        lttb_not_configured(),
        EngineError::LttbExtensionUnavailable { message } if message.contains("PULSEON_LTTB_AUTO_INSTALL=1")
    ));
}

#[test]
fn project_lookups_convert_the_stored_row() {
    let id = ProjectId::from_string("p1");
    assert_eq!(
        project_from_lookup(&id, None).err(),
        Some(EngineError::ProjectNotFound { project_id: "p1".to_owned() })
    );
    let project = project_from_lookup(&id, Some(("p1".to_owned(), "vision".to_owned(), 5))).unwrap();
    assert_eq!((project.name.as_str(), project.created_at.millis()), ("vision", 5));
    assert_eq!(
        project_from_lookup(&id, Some(("p1".to_owned(), "v".to_owned(), i64::MIN))).err(),
        Some(EngineError::InvalidTimestamp { field: "created_at", millis: i64::MIN })
    );
}

#[test]
fn curves_are_graded_by_points_status_and_axis() {
    assert_eq!(curve_completeness(false, RunStatus::Finished, false), EvidenceCompleteness::Unavailable);
    assert_eq!(curve_completeness(true, RunStatus::Running, false), EvidenceCompleteness::Partial);
    assert_eq!(curve_completeness(true, RunStatus::Failed, true), EvidenceCompleteness::Partial);
    assert_eq!(curve_completeness(true, RunStatus::Finished, false), EvidenceCompleteness::Complete);
}
