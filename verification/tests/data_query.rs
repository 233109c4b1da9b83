use pulseon::data::query::{
    percent_encode_metric_key, MetricQuery, MetricQueryPlan, ParquetSource, QueryBudget,
    StepViewport, METRIC_QUERY_SQL,
};
use pulseon::data::DataError;

#[test]
fn query_plan_uses_half_open_viewport_and_screen_budget() {
    let viewport = StepViewport::new(Some(10), Some(20)).expect("viewport should be valid");
    let budget = QueryBudget::new(200, 2).expect("budget should be valid");
    let query = MetricQuery::new("run-1", "loss", viewport, budget).expect("query should be valid");

    assert_eq!(
        query.plan(),
        MetricQueryPlan {
            viewport,
            max_points: 400,
            bucket_count: 100,
        }
    );
}

#[test]
fn percent_encoding_matches_the_parquet_partition_contract() {
    assert_eq!(
        percent_encode_metric_key("train/loss 零"),
        "train%2Floss%20%E9%9B%B6"
    );
}

#[test]
fn metric_query_filters_the_public_partition_columns() {
    assert!(METRIC_QUERY_SQL.contains("run_id = ?"));
    assert!(METRIC_QUERY_SQL.contains("metric_key_encoded = ?"));
}

#[test]
fn budget_points_are_clamped_to_one_bucket_and_the_global_maximum() {
    assert_eq!(QueryBudget::new(1, 1).unwrap().max_points(), 4);
    assert_eq!(QueryBudget::new(u32::MAX, u16::MAX).unwrap().max_points(), 1_000_000);
    assert_eq!(QueryBudget::new(0, 1), Err(DataError::InvalidQueryBudget));
    assert_eq!(QueryBudget::new(1, 0), Err(DataError::InvalidQueryBudget));
}

#[test]
fn small_budget_keeps_one_bucket() {
    let viewport = StepViewport::new(None, None).unwrap();
    let query = MetricQuery::new("run-1", "loss", viewport, QueryBudget::new(2, 1).unwrap()).unwrap();
    assert_eq!(query.plan().max_points, 4);
    assert_eq!(query.plan().bucket_count, 1);
}

#[test]
fn viewport_end_may_not_precede_start() {
    assert!(StepViewport::new(Some(5), Some(5)).is_err());
    assert!(StepViewport::new(Some(6), Some(5)).is_err());
    assert!(StepViewport::new(Some(5), Some(6)).is_ok());
    assert!(StepViewport::new(None, Some(-3)).is_ok());
}

#[test]
fn blank_identities_and_sources_are_refused() {
    let viewport = StepViewport::new(None, None).unwrap();
    let budget = QueryBudget::new(10, 1).unwrap();
    assert_eq!(
        MetricQuery::new(" ", "loss", viewport, budget).err(),
        Some(DataError::InvalidIdentity)
    );
    assert_eq!(
        MetricQuery::new("run", "\t", viewport, budget).err(),
        Some(DataError::InvalidIdentity)
    );
    assert_eq!(ParquetSource::new("  ").err(), Some(DataError::EmptySource));
    assert_eq!(ParquetSource::new("data/*.parquet").unwrap().location(), "data/*.parquet");
}

#[test]
fn parameters_follow_the_placeholders_of_the_query() {
    let viewport = StepViewport::new(Some(2), Some(5)).unwrap();
    let query =
        MetricQuery::new("run-1", "train/loss", viewport, QueryBudget::new(2, 2).unwrap()).unwrap();
    let parameters = query.parameters(&ParquetSource::new("points.parquet").unwrap());
    assert_eq!(parameters.location, "points.parquet");
    assert_eq!(parameters.run_id, "run-1");
    assert_eq!(parameters.metric_key, "train/loss");
    assert_eq!(parameters.metric_key_encoded, "train%2Floss");
    assert_eq!((parameters.start, parameters.end), (Some(2), Some(5)));
    assert_eq!(parameters.bucket_count, 1);
    assert_eq!(METRIC_QUERY_SQL.matches('?').count(), 9);
}
