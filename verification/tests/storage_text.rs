use pulseon::model::metric::MetricKey;
use pulseon::model::run::RunId;
use pulseon::storage::alignment::{
    aligned_points_sql, alignment_bucket_count, axis_reasons, axis_reasons_sql, base_values,
    check_alignment_identity, ordered_ctes, plan_aligned_query, query_values, AlignmentQuery,
    AlignmentReason, AlignmentReduction, AlignmentSource, SqlValue, StorageError,
};
use pulseon::text::{percent_encode, text_equals, text_is_blank};
use pulseon::viewer::state::run_fields_match_filter;
use pulseon::viewer::model::{AlignmentAxis, AlignmentQueryError, AlignmentViewport};

fn query(axis: AlignmentAxis, reduction: AlignmentReduction) -> AlignmentQuery {
    AlignmentQuery {
        run_id: RunId::from_string("run-1"),
        metric_key: MetricKey::from_string("train/loss"),
        axis,
        viewport: AlignmentViewport::new(2, 9).unwrap(),
        reduction,
    }
}

#[test]
fn aligned_queries_read_the_project_or_parquet_files() {
    let project = ordered_ctes(AlignmentSource::Project, AlignmentAxis::Step);
    assert!(project.starts_with("WITH ranked AS ("));
    assert!(project.contains("FROM dl.metric_points"));
    assert!(project.contains("ORDER BY ingested_at DESC, rowid DESC"));
    assert!(project.contains("SELECT *, step AS axis_value FROM effective"));
    assert!(project.ends_with("FROM derived\n         )"));
    let parquet = ordered_ctes(AlignmentSource::Parquet("p/*.parquet"), AlignmentAxis::ElapsedTime);
    assert!(parquet.contains("FROM read_parquet(?, hive_partitioning = true, union_by_name = true, filename = true, file_row_number = true)"));
    assert!(parquet.contains("ORDER BY ingested_at DESC, filename DESC, file_row_number DESC"));
    assert!(parquet.contains("SELECT *, epoch_ms(timestamp) - ? AS axis_value FROM effective"));
    let reasons = axis_reasons_sql(AlignmentSource::Project, AlignmentAxis::Step);
    assert!(reasons.ends_with("FROM ordered"));
    let full = aligned_points_sql(AlignmentSource::Project, AlignmentAxis::Step, false);
    assert!(full.contains("selected AS (SELECT * FROM visible_source)"));
    assert!(full.ends_with("FROM selected ORDER BY step"));
    let reduced = aligned_points_sql(AlignmentSource::Project, AlignmentAxis::Step, true);
    assert!(reduced.contains("inside_bucketed AS ("));
    assert_eq!(reduced.matches('?').count(), full.matches('?').count() + 1);
}

#[test]
fn bound_values_follow_the_placeholders() {
    let q = query(AlignmentAxis::ElapsedTime, AlignmentReduction::Full);
    assert_eq!(
        base_values(AlignmentSource::Parquet("f.parquet"), &q, Some(1_000)),
        vec![
            SqlValue::Text("f.parquet".to_owned()),
            SqlValue::Text("run-1".to_owned()),
            SqlValue::Text("train/loss".to_owned()),
            SqlValue::Text("train%2Floss".to_owned()),
            SqlValue::NullableBigInt(Some(1_000)),
        ]
    );
    let values = query_values(AlignmentSource::Project, &q, None, Some(25)).unwrap();
    assert_eq!(values.len(), 3 + 1 + 4 + 1);
    assert_eq!(values[4..], [
        SqlValue::BigInt(2),
        SqlValue::BigInt(9),
        SqlValue::BigInt(2),
        SqlValue::BigInt(9),
        SqlValue::BigInt(25),
    ]);
    let sql = aligned_points_sql(AlignmentSource::Project, AlignmentAxis::ElapsedTime, true);
    assert_eq!(sql.matches('?').count(), values.len());
}

#[test]
fn screen_reductions_bucket_a_quarter_of_their_points() {
    assert_eq!(alignment_bucket_count(AlignmentReduction::Full), None);
    let budget = AlignmentReduction::screen_budget(1_000, 1).unwrap();
    assert_eq!(budget.max_points(), Some(1_000));
    assert_eq!(alignment_bucket_count(budget), Some(250));
    assert_eq!(alignment_bucket_count(AlignmentReduction::screen_budget(1, 1).unwrap()), Some(1));
    assert_eq!(AlignmentReduction::screen_budget(0, 1), Err(AlignmentQueryError::InvalidBudget));
}

#[test]
fn axis_flags_become_reasons_in_order() {
    assert_eq!(axis_reasons(false, false), vec![]);
    assert_eq!(
        axis_reasons(true, true),
        vec![AlignmentReason::NegativeAxis, AlignmentReason::DecreasingAxis]
    );
    assert_eq!(axis_reasons(false, true), vec![AlignmentReason::DecreasingAxis]);
}

#[test]
fn blank_identities_are_refused_before_any_query() {
    let mut q = query(AlignmentAxis::Step, AlignmentReduction::Full);
    assert_eq!(check_alignment_identity(&q), Ok(()));
    q.metric_key = MetricKey::from_string("  ");
    assert_eq!(check_alignment_identity(&q), Err(StorageError::InvalidIdentity));
    assert_eq!(
        plan_aligned_query(AlignmentSource::Project, &q, None).err(),
        Some(StorageError::InvalidIdentity)
    );
    let plan = plan_aligned_query(
        AlignmentSource::Project,
        &query(AlignmentAxis::Step, AlignmentReduction::screen_budget(400, 2).unwrap()),
        None,
    )
    .unwrap();
    assert_eq!(plan.points_values.last(), Some(&SqlValue::BigInt(200)));
    assert_eq!(plan.points_sql.matches('?').count(), plan.points_values.len());
    assert_eq!(plan.reasons_sql.matches('?').count(), plan.reasons_values.len());
}

#[test]
fn text_helpers_follow_std() {
    assert!(text_is_blank(" \t\n"));
    assert!(text_is_blank(""));
    assert!(!text_is_blank(" x "));
    assert!(run_fields_match_filter("Äbc", "id", "running", "  äB  "));
    assert!(!run_fields_match_filter("Abc", "id", "running", "a b"));
    assert!(text_equals("abc", "abc"));
    assert!(!text_equals("abc", "abd"));
    assert_eq!(percent_encode("A-z_0.9~"), "A-z_0.9~");
    assert_eq!(percent_encode("%"), "%25");
    assert_ne!(percent_encode("a b"), percent_encode("a+b"));
}
