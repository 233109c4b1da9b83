use pulseon::viewer::query::{curve_queries, overview_viewport};
use pulseon::storage::alignment::AlignmentReduction;
use pulseon::engine::bootstrap::CatalogBackend;
use pulseon::engine::time::timestamp_from_millis;
use pulseon::model::metric::MetricKey;
use pulseon::model::run::{Project, ProjectId, Run, RunId, RunStatus};
use pulseon::viewer::model::{
    AlignmentAxis, AlignmentQueryError, AlignmentViewport, CatalogSnapshot, CurveSelection,
    DetailRequest, DiscoveryRequest,
};
use pulseon::viewer::palette::{axis_value_label, series_color_rgb};
use pulseon::viewer::query::{detail_budget, overview_budget, real_range, widen_real_bounds};
use pulseon::viewer::source::{check_viewer_data_path, existing_store_config, SourceError};
use pulseon::viewer::state::{
    run_fields_match_filter, run_matches_filter, ApplyOutcome, SelectionError, ViewerCore,
    ViewerSelection, MAX_SELECTED_RUNS,
};
use pulseon::viewer::worker::{
    Generation, PendingRequests, ReadEvent, ReadKind, ReadRequest, ReadSnapshot, TaggedRequest,
};

/// A stand-in for the curves a detail read returns.
#[derive(Debug, PartialEq)]
struct Curves(u32);

fn detail_event(generation: u64) -> ReadEvent<Curves> {
    ReadEvent {
        generation: Generation(generation),
        kind: ReadKind::Detail,
        result: Ok(ReadSnapshot::Detail(Curves(2_000))),
    }
}

fn detail_request() -> ReadRequest {
    ReadRequest::Detail(DetailRequest {
        selection: CurveSelection {
            run_ids: Vec::new(),
            metric_key: MetricKey::from_string("loss"),
            axis: AlignmentAxis::Step,
        },
        viewport: AlignmentViewport::new(0, 1).expect("test viewport should be valid"),
        physical_width: 1_000,
    })
}

fn run(id: &str, project: &str) -> Run {
    let at = timestamp_from_millis("created_at", 0).unwrap();
    Run {
        run_id: RunId::from_string(id),
        project_id: ProjectId::from_string(project),
        name: id.to_owned(),
        status: RunStatus::Running,
        created_at: at,
        started_at: at,
        finished_at: None,
    }
}

fn project(id: &str) -> Project {
    Project {
        project_id: ProjectId::from_string(id),
        name: id.to_owned(),
        created_at: timestamp_from_millis("created_at", 0).unwrap(),
    }
}

#[test]
fn detail_stays_visible_while_pending_and_stale_results_are_ignored() {
    let mut core: ViewerCore<Curves, ()> = ViewerCore::default();
    let request = detail_request();
    core.begin(Generation(1), &request);
    assert_eq!(core.apply(detail_event(1)), ApplyOutcome::Applied);
    core.begin(Generation(2), &request);

    assert!(core.detail().is_some() && core.is_pending(ReadKind::Detail));
    assert_eq!(core.apply(detail_event(1)), ApplyOutcome::IgnoredStale);
    assert!(core.detail().is_some() && core.is_pending(ReadKind::Detail));
}

#[test]
fn refresh_removes_missing_selection_and_curve_snapshots() {
    let mut core: ViewerCore<Curves, ()> = ViewerCore::new(ViewerSelection {
        project_id: Some(ProjectId::from_string("removed")),
        run_ids: vec![RunId::from_string("run-1")],
        metric_key: Some(MetricKey::from_string("loss")),
    });
    core.begin(Generation(7), &detail_request());
    assert_eq!(core.apply(detail_event(7)), ApplyOutcome::Applied);
    let request = ReadRequest::Discover(DiscoveryRequest::default());
    core.begin(Generation(1), &request);
    let event = ReadEvent {
        generation: Generation(1),
        kind: ReadKind::Catalog,
        result: Ok(ReadSnapshot::Catalog(CatalogSnapshot {
            projects: Vec::new(),
            runs: Vec::new(),
            metric_keys: Vec::new(),
        })),
    };

    assert_eq!(core.apply(event), ApplyOutcome::Applied);
    assert_eq!(core.selection(), &ViewerSelection::default());
    assert!(core.detail().is_none());
}

#[test]
fn selection_transitions_clear_only_dependent_state() {
    let mut core: ViewerCore<Curves, ()> = ViewerCore::default();
    core.select_project(Some(ProjectId::from_string("project-1")));
    assert!(core
        .toggle_run(RunId::from_string("run-1"))
        .expect("first Run should be selectable"));
    core.select_metric(Some(MetricKey::from_string("loss")));

    core.select_axis(AlignmentAxis::ElapsedTime);

    assert_eq!(core.axis(), AlignmentAxis::ElapsedTime);
    assert_eq!(core.selection().run_ids.len(), 1);
    assert_eq!(
        core.selection().metric_key.as_ref().map(MetricKey::as_str),
        Some("loss")
    );
    assert!(core.overview().is_none() && core.detail().is_none());
}

#[test]
fn run_selection_enforces_the_ten_run_limit() {
    let mut core: ViewerCore<Curves, ()> = ViewerCore::default();
    for index in 0..MAX_SELECTED_RUNS {
        core.toggle_run(RunId::from_string(&format!("run-{index}")))
            .expect("first ten Runs should be selectable");
    }

    assert_eq!(
        core.toggle_run(RunId::from_string("run-10")),
        Err(SelectionError::RunLimit)
    );
    assert_eq!(core.selection().run_ids.len(), MAX_SELECTED_RUNS);
}

#[test]
fn run_filter_matches_name_id_and_status_without_case() {
    assert!(["loss", "run-42", "FAILED", ""]
        .into_iter()
        .all(|query| run_fields_match_filter("Loss Baseline", "RUN-42", "failed", query)));
    assert!(!run_fields_match_filter(
        "Loss Baseline",
        "RUN-42",
        "failed",
        "running"
    ));
}

#[test]
fn run_filter_trims_the_query_and_reads_the_stored_status() {
    let r = run("Run-7", "p");
    assert!(run_matches_filter(&r, "  RUNNING "));
    assert!(run_matches_filter(&r, "run-7"));
    assert!(!run_matches_filter(&r, "finished"));
}

#[test]
fn selecting_then_deselecting_a_run_restores_the_selection() {
    let mut core: ViewerCore<Curves, ()> = ViewerCore::default();
    core.toggle_run(RunId::from_string("a")).unwrap();
    assert_eq!(core.toggle_run(RunId::from_string("b")), Ok(true));
    assert_eq!(core.toggle_run(RunId::from_string("b")), Ok(false));
    let ids: Vec<&str> = core.selection().run_ids.iter().map(RunId::as_str).collect();
    assert_eq!(ids, ["a"]);
}

#[test]
fn catalog_refresh_keeps_listed_runs_in_catalog_order() {
    let mut core: ViewerCore<Curves, ()> = ViewerCore::new(ViewerSelection {
        project_id: Some(ProjectId::from_string("p")),
        run_ids: vec![
            RunId::from_string("r3"),
            RunId::from_string("gone"),
            RunId::from_string("r1"),
        ],
        metric_key: Some(MetricKey::from_string("acc")),
    });
    let catalog = || CatalogSnapshot {
        projects: vec![project("p")],
        runs: vec![run("r1", "p"), run("r2", "p"), run("r3", "p")],
        metric_keys: vec![MetricKey::from_string("loss")],
    };
    for generation in [1, 2] {
        core.begin(Generation(generation), &ReadRequest::Discover(DiscoveryRequest::default()));
        let outcome = core.apply(ReadEvent {
            generation: Generation(generation),
            kind: ReadKind::Catalog,
            result: Ok(ReadSnapshot::Catalog(catalog())),
        });
        assert_eq!(outcome, ApplyOutcome::Applied);
        let ids: Vec<&str> = core.selection().run_ids.iter().map(RunId::as_str).collect();
        assert_eq!(ids, ["r1", "r3"]);
        assert_eq!(core.selection().metric_key, None);
        assert_eq!(core.selection().project_id.as_ref().map(ProjectId::as_str), Some("p"));
    }
}

#[test]
fn results_of_the_wrong_stream_or_generation_are_ignored() {
    let mut core: ViewerCore<Curves, ()> = ViewerCore::default();
    assert_eq!(core.apply(detail_event(1)), ApplyOutcome::IgnoredStale);
    core.begin(Generation(1), &detail_request());
    let mismatched = ReadEvent {
        generation: Generation(1),
        kind: ReadKind::Detail,
        result: Ok(ReadSnapshot::Overview(Curves(1))),
    };
    assert_eq!(core.apply(mismatched), ApplyOutcome::IgnoredMismatched);
    assert!(core.is_pending(ReadKind::Detail));
    let failed = ReadEvent {
        generation: Generation(1),
        kind: ReadKind::Detail,
        result: Err("storage unavailable".to_owned()),
    };
    assert_eq!(core.apply(failed), ApplyOutcome::Applied);
    assert_eq!(core.last_error(), Some("storage unavailable"));
    assert!(!core.is_pending(ReadKind::Detail));
}

#[test]
fn pending_requests_keep_the_latest_generation_per_kind() {
    let mut pending = PendingRequests::default();
    for generation in [1, 2] {
        pending.push(TaggedRequest {
            generation: Generation(generation),
            request: ReadRequest::Discover(DiscoveryRequest::default()),
        });
    }

    assert_eq!(
        pending.take_next().map(|request| request.generation),
        Some(Generation(2))
    );
}

#[test]
fn pending_requests_ignore_older_generations_and_serve_catalog_first() {
    let mut pending = PendingRequests::new();
    pending.push(TaggedRequest { generation: Generation(5), request: detail_request() });
    pending.push(TaggedRequest { generation: Generation(3), request: detail_request() });
    pending.push(TaggedRequest {
        generation: Generation(4),
        request: ReadRequest::Discover(DiscoveryRequest::default()),
    });
    assert_eq!(pending.take_next().map(|r| r.generation), Some(Generation(4)));
    assert_eq!(pending.take_next().map(|r| r.generation), Some(Generation(5)));
    assert!(pending.take_next().is_none());
}

#[test]
fn screen_budgets_clamp_density_and_overflow() {
    assert_eq!(
        [
            overview_budget(1),
            overview_budget(900),
            overview_budget(9_000),
            detail_budget(1),
            detail_budget(2_500),
            detail_budget(u32::MAX)
        ],
        [500, 900, 2_000, 2_000, 5_000, 10_000]
    );
}

#[test]
fn real_range_covers_drawn_values_inside_the_viewport() {
    let viewport = AlignmentViewport::new(0, 100).unwrap();
    let bounds = widen_real_bounds(None, &[-5, 10, 40, 200], viewport);
    assert_eq!(bounds, Some((10, 40)));
    let bounds = widen_real_bounds(bounds, &[3, 99], viewport);
    assert_eq!(bounds, Some((3, 99)));
    let range = real_range(bounds).unwrap().unwrap();
    assert_eq!((range.start(), range.end()), (3, 99));
    assert_eq!(real_range(None), Ok(None));
    assert_eq!(real_range(Some((5, 4))).err(), Some(AlignmentQueryError::InvalidViewport));
    assert_eq!(widen_real_bounds(None, &[101], viewport), None);
}

#[test]
fn viewports_are_closed_ranges() {
    assert!(AlignmentViewport::new(3, 3).is_ok());
    assert_eq!(AlignmentViewport::new(4, 3).err(), Some(AlignmentQueryError::InvalidViewport));
}

#[test]
fn first_ten_series_colors_are_distinct() {
    for left in 0..10 {
        for right in left + 1..10 {
            assert_ne!(series_color_rgb(left), series_color_rgb(right));
        }
    }
    assert_eq!(series_color_rgb(0), 0x2563eb);
    assert_eq!(series_color_rgb(13), series_color_rgb(3));
    assert_eq!(axis_value_label(AlignmentAxis::ElapsedTime), "elapsed_ms");
}

#[test]
fn s3_data_paths_are_refused_by_the_viewer() {
    assert_eq!(check_viewer_data_path(Some("s3://bucket/data")), Err(SourceError::UnsupportedS3));
    assert_eq!(check_viewer_data_path(Some("/local/data")), Ok(()));
    assert_eq!(
        existing_store_config("/root", CatalogBackend::DuckDb, None, Some("s3://b/d".to_owned())).err(),
        Some(SourceError::UnsupportedS3)
    );
    let config = existing_store_config("/root", CatalogBackend::Sqlite, None, None).unwrap();
    assert_eq!(config.catalog_path, "/root/.pulseon/catalog.sqlite");
    assert_eq!(config.data_path, "/root/.pulseon/data");
    assert!(config.s3_connection.is_none());
}

#[test]
fn curve_queries_share_the_selection_and_budget() {
    let selection = CurveSelection {
        run_ids: vec![RunId::from_string("a"), RunId::from_string("b")],
        metric_key: MetricKey::from_string("loss"),
        axis: AlignmentAxis::ElapsedTime,
    };
    let viewport = overview_viewport();
    assert_eq!((viewport.start(), viewport.end()), (0, i64::MAX));
    let queries = curve_queries(&selection, &selection.run_ids, viewport, 900).unwrap();
    let ids: Vec<&str> = queries.iter().map(|query| query.run_id.as_str()).collect();
    assert_eq!(ids, ["a", "b"]);
    assert!(queries.iter().all(|query| query.metric_key.as_str() == "loss"
        && query.axis == AlignmentAxis::ElapsedTime
        && query.viewport == viewport
        && query.reduction == AlignmentReduction::ScreenBudget { pixel_width: 900, points_per_pixel: 1 }));
    assert_eq!(
        curve_queries(&selection, &selection.run_ids, viewport, 0).err(),
        Some(AlignmentQueryError::InvalidBudget)
    );
}

#[test]
fn the_brush_is_kept_until_curves_change() {
    let mut core: ViewerCore<Curves, u32> = ViewerCore::default();
    assert!(core.brush_mut().is_none());
    core.set_brush(Some(5));
    if let Some(brush) = core.brush_mut() {
        *brush = 7;
    }
    assert_eq!(core.brush(), Some(&7));
    core.select_axis(AlignmentAxis::Step);
    assert_eq!(core.brush(), Some(&7));
    core.select_axis(AlignmentAxis::ElapsedTime);
    assert_eq!(core.brush(), None);
}
