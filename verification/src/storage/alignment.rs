use vstd::prelude::*;

use crate::data::query::{budget_max_points, percent_encode_metric_key, EXTREMA_PER_BUCKET};
use crate::model::metric::MetricKey;
use crate::model::run::RunId;
use crate::text::{is_blank, percent_encoded, text_is_blank};
use crate::viewer::model::{AlignmentAxis, AlignmentQueryError, AlignmentViewport};
use vstd::string::StringExecFns;

verus! {

/// The start of the ranking CTE, up to the tie breaker of equal ingestion times.
pub const RANKED_HEAD: &'static str = "WITH ranked AS (\n             SELECT run_id, metric_key, step, timestamp, value_f64, ingested_at,\n                    row_number() OVER (\n                        PARTITION BY run_id, metric_key, step\n                        ORDER BY ingested_at DESC, ";

/// Closes the ranking window and names the relation read.
pub const RANKED_SOURCE: &'static str = "\n                    ) AS write_rank\n             FROM ";

/// Filters the run and metric, keeps the last write per step, and starts the axis expression.
pub const DERIVED_AXIS: &'static str = "\n             WHERE run_id = ? AND metric_key = ? AND metric_key_encoded = ?\n         ),\n         effective AS (\n             SELECT run_id, metric_key, step, timestamp, value_f64, ingested_at\n             FROM ranked WHERE write_rank = 1\n         ),\n         derived AS (\n             SELECT *, ";

/// Names the derived axis and orders the effective points by step.
pub const ORDERED_TAIL: &'static str = " AS axis_value FROM effective\n         ),\n         ordered AS (\n             SELECT *, lag(axis_value) OVER (ORDER BY step) AS previous_axis_value\n             FROM derived\n         )";

/// The catalog table of metric points.
pub const PROJECT_RELATION: &'static str = "dl.metric_points";

/// Later catalog rows win ties of ingestion time.
pub const PROJECT_TIE_BREAKER: &'static str = "rowid DESC";

/// A Parquet source read with its partition columns and row provenance.
pub const PARQUET_RELATION: &'static str = "read_parquet(?, hive_partitioning = true, union_by_name = true, filename = true, file_row_number = true)";

/// Later files and rows win ties of ingestion time.
pub const PARQUET_TIE_BREAKER: &'static str = "filename DESC, file_row_number DESC";

/// The step axis.
pub const STEP_AXIS: &'static str = "step";

/// Milliseconds since the run started.
pub const ELAPSED_AXIS: &'static str = "epoch_ms(timestamp) - ?";

/// Reports whether any axis value is negative and whether any decreases.
pub const AXIS_REASONS_TAIL: &'static str = "\n         SELECT coalesce(bool_or(axis_value < 0), false),\n                coalesce(bool_or(\n                    previous_axis_value IS NOT NULL AND axis_value < previous_axis_value\n                ), false)\n         FROM ordered";

/// The points inside the viewport and their nearest neighbours outside it.
pub const VISIBLE_POINTS: &'static str = ",\n         inside AS (\n             SELECT * FROM ordered WHERE axis_value >= ? AND axis_value <= ?\n         ),\n         left_neighbor AS (\n             SELECT * FROM ordered WHERE axis_value < ?\n             QUALIFY row_number() OVER (ORDER BY axis_value DESC, step DESC) = 1\n         ),\n         right_neighbor AS (\n             SELECT * FROM ordered WHERE axis_value > ?\n             QUALIFY row_number() OVER (ORDER BY axis_value, step) = 1\n         ),\n         visible_source AS (\n             SELECT * FROM inside\n             UNION ALL SELECT * FROM left_neighbor\n             UNION ALL SELECT * FROM right_neighbor\n         ),\n         ";

/// Keeps the extrema of each screen bucket inside the viewport, and the neighbours.
pub const SCREEN_SELECTION: &'static str = "inside_numbered AS (\n             SELECT *, row_number() OVER (ORDER BY step) - 1 AS ordinal,\n                    count(*) OVER ()::UBIGINT AS inside_count\n             FROM inside\n         ),\n         inside_bucketed AS (\n             SELECT *, floor(\n                 ordinal::DOUBLE * ?::DOUBLE / inside_count::DOUBLE\n             )::UBIGINT AS bucket\n             FROM inside_numbered\n         ),\n         inside_candidates AS (\n             SELECT *,\n                    row_number() OVER (PARTITION BY bucket ORDER BY axis_value, step) AS first_rank,\n                    row_number() OVER (PARTITION BY bucket ORDER BY axis_value DESC, step DESC) AS last_rank,\n                    row_number() OVER (PARTITION BY bucket ORDER BY value_f64, axis_value, step) AS min_rank,\n                    row_number() OVER (PARTITION BY bucket ORDER BY value_f64 DESC, axis_value, step) AS max_rank\n             FROM inside_bucketed\n         ),\n         selected AS (\n             SELECT * EXCLUDE (ordinal, inside_count, bucket, first_rank, last_rank, min_rank, max_rank)\n             FROM inside_candidates\n             WHERE first_rank = 1 OR last_rank = 1 OR min_rank = 1 OR max_rank = 1\n             UNION ALL SELECT * FROM left_neighbor\n             UNION ALL SELECT * FROM right_neighbor\n         )";

/// Keeps every visible point.
pub const FULL_SELECTION: &'static str = "selected AS (SELECT * FROM visible_source)";

/// Returns the selected points by step with the visible row count.
pub const POINTS_TAIL: &'static str = "\n         SELECT run_id, metric_key, step, epoch_ms(timestamp), value_f64,\n                epoch_ms(ingested_at), axis_value,\n                (SELECT count(*)::UBIGINT FROM visible_source)\n         FROM selected ORDER BY step";

/// Failures of an aligned metric query.
#[derive(Debug, PartialEq, Eq)]
pub enum StorageError {
    InvalidIdentity,
    QueryMaxPointsTooLarge { max_points: usize },
    DuckDb { message: String },
}

/// Where aligned points are read from.
#[derive(Clone, Copy, Debug, PartialEq, Eq)]
pub enum AlignmentSource<'a> {
    Project,
    Parquet(&'a str),
}

/// How many points an aligned query may return.
#[derive(Clone, Copy, Debug, PartialEq, Eq, Structural)]
pub enum AlignmentReduction {
    Full,
    ScreenBudget { pixel_width: u32, points_per_pixel: u16 },
}

/// The point limit of a reduction; a full query has none.
pub open spec fn reduction_max_points(reduction: AlignmentReduction) -> Option<int> {
    match reduction {
        AlignmentReduction::Full => None,
        AlignmentReduction::ScreenBudget { pixel_width, points_per_pixel } => Some(
            budget_max_points(pixel_width, points_per_pixel),
        ),
    }
}

impl AlignmentReduction {
    /// A screen budget; both the width and the density must be positive.
    pub fn screen_budget(pixel_width: u32, points_per_pixel: u16) -> (result: Result<
        AlignmentReduction,
        AlignmentQueryError,
    >)
        ensures
            match result {
                Ok(reduction) => pixel_width > 0 && points_per_pixel > 0 && reduction
                    == AlignmentReduction::ScreenBudget { pixel_width, points_per_pixel },
                Err(error) => (pixel_width == 0 || points_per_pixel == 0) && error
                    == AlignmentQueryError::InvalidBudget,
            },
    {
        if pixel_width == 0 || points_per_pixel == 0 {
            return Err(AlignmentQueryError::InvalidBudget);
        }
        Ok(AlignmentReduction::ScreenBudget { pixel_width, points_per_pixel })
    }

    /// The most points a query under this reduction returns.
    pub fn max_points(self) -> (max_points: Option<usize>)
        ensures
            match max_points {
                Some(m) => reduction_max_points(self) == Some(m as int),
                None => reduction_max_points(self) is None,
            },
    {
        match self {
            AlignmentReduction::Full => None,
            AlignmentReduction::ScreenBudget { pixel_width, points_per_pixel } => {
                match crate::data::query::QueryBudget::new(pixel_width, points_per_pixel) {
                    Ok(budget) => Some(budget.max_points()),
                    Err(_) => Some(EXTREMA_PER_BUCKET),
                }
            },
        }
    }
}

/// One run's metric, aligned on an axis and cut to a viewport.
#[derive(Clone, Debug, PartialEq, Eq)]
pub struct AlignmentQuery {
    pub run_id: RunId,
    pub metric_key: MetricKey,
    pub axis: AlignmentAxis,
    pub viewport: AlignmentViewport,
    pub reduction: AlignmentReduction,
}

/// Why an axis cannot be trusted as monotone.
#[derive(Clone, Copy, Debug, PartialEq, Eq, Structural)]
pub enum AlignmentReason {
    NegativeAxis,
    DecreasingAxis,
}

/// A value bound to one placeholder of an aligned query.
#[derive(Clone, Debug, PartialEq, Eq)]
pub enum SqlValue {
    Text(String),
    BigInt(i64),
    NullableBigInt(Option<i64>),
}

/// The abstract value of a bound placeholder.
pub enum SqlValueView {
    Text(Seq<char>),
    BigInt(i64),
    NullableBigInt(Option<i64>),
}

pub open spec fn sql_value_view(value: SqlValue) -> SqlValueView {
    match value {
        SqlValue::Text(s) => SqlValueView::Text(s@),
        SqlValue::BigInt(v) => SqlValueView::BigInt(v),
        SqlValue::NullableBigInt(v) => SqlValueView::NullableBigInt(v),
    }
}

/// The abstract values of a list of bound placeholders.
pub open spec fn sql_values_view(values: Seq<SqlValue>) -> Seq<SqlValueView> {
    values.map_values(|v: SqlValue| sql_value_view(v))
}


/// The relation an aligned query reads.
pub open spec fn relation_text(source: AlignmentSource) -> Seq<char> {
    match source {
        AlignmentSource::Project => PROJECT_RELATION@,
        AlignmentSource::Parquet(_) => PARQUET_RELATION@,
    }
}

/// What breaks ties between writes with the same ingestion time.
pub open spec fn tie_breaker_text(source: AlignmentSource) -> Seq<char> {
    match source {
        AlignmentSource::Project => PROJECT_TIE_BREAKER@,
        AlignmentSource::Parquet(_) => PARQUET_TIE_BREAKER@,
    }
}

/// The expression of the alignment axis.
pub open spec fn axis_expression_text(axis: AlignmentAxis) -> Seq<char> {
    match axis {
        AlignmentAxis::Step => STEP_AXIS@,
        AlignmentAxis::ElapsedTime => ELAPSED_AXIS@,
    }
}

/// The common table expressions every aligned query starts with: the last
/// write per step of one run's metric, its axis value, and the previous one.
pub open spec fn ordered_ctes_text(source: AlignmentSource, axis: AlignmentAxis) -> Seq<char> {
    RANKED_HEAD@ + tie_breaker_text(source) + RANKED_SOURCE@ + relation_text(source)
        + DERIVED_AXIS@ + axis_expression_text(axis) + ORDERED_TAIL@
}

/// The query of the two axis flags.
pub open spec fn axis_reasons_sql_text(source: AlignmentSource, axis: AlignmentAxis) -> Seq<char> {
    ordered_ctes_text(source, axis) + AXIS_REASONS_TAIL@
}

/// The query of the aligned points.
pub open spec fn aligned_points_sql_text(
    source: AlignmentSource,
    axis: AlignmentAxis,
    screen_reduced: bool,
) -> Seq<char> {
    ordered_ctes_text(source, axis) + VISIBLE_POINTS@ + (if screen_reduced {
        SCREEN_SELECTION@
    } else {
        FULL_SELECTION@
    }) + POINTS_TAIL@
}

/// The shared CTEs of an aligned query.
pub fn ordered_ctes(source: AlignmentSource, axis: AlignmentAxis) -> (sql: String)
    ensures
        sql@ == ordered_ctes_text(source, axis),
{
    let (relation, tie_breaker) = match source {
        AlignmentSource::Project => (PROJECT_RELATION, PROJECT_TIE_BREAKER),
        AlignmentSource::Parquet(_) => (PARQUET_RELATION, PARQUET_TIE_BREAKER),
    };
    let axis_expression = match axis {
        AlignmentAxis::Step => STEP_AXIS,
        AlignmentAxis::ElapsedTime => ELAPSED_AXIS,
    };
    let mut sql = String::from_str(RANKED_HEAD);
    sql.append(tie_breaker);
    sql.append(RANKED_SOURCE);
    sql.append(relation);
    sql.append(DERIVED_AXIS);
    sql.append(axis_expression);
    sql.append(ORDERED_TAIL);
    sql
}

/// The query that reports whether the axis is negative or decreasing anywhere.
pub fn axis_reasons_sql(source: AlignmentSource, axis: AlignmentAxis) -> (sql: String)
    ensures
        sql@ == axis_reasons_sql_text(source, axis),
{
    let mut sql = ordered_ctes(source, axis);
    sql.append(AXIS_REASONS_TAIL);
    sql
}

/// The query of the aligned points of a viewport: every visible point, or
/// the extrema of each screen bucket, plus the nearest neighbours outside.
pub fn aligned_points_sql(source: AlignmentSource, axis: AlignmentAxis, screen_reduced: bool) -> (sql:
    String)
    ensures
        sql@ == aligned_points_sql_text(source, axis, screen_reduced),
{
    let mut sql = ordered_ctes(source, axis);
    sql.append(VISIBLE_POINTS);
    if screen_reduced {
        sql.append(SCREEN_SELECTION);
    } else {
        sql.append(FULL_SELECTION);
    }
    sql.append(POINTS_TAIL);
    sql
}

/// The reasons the axis flags report, negative before decreasing.
pub open spec fn reasons_of(negative: bool, decreasing: bool) -> Seq<AlignmentReason> {
    (if negative {
        seq![AlignmentReason::NegativeAxis]
    } else {
        Seq::empty()
    }) + (if decreasing {
        seq![AlignmentReason::DecreasingAxis]
    } else {
        Seq::empty()
    })
}

/// Each axis flag is reported on its own: the reasons name a negative axis
/// exactly when the negative flag is set and a decreasing axis exactly when
/// the decreasing flag is set, each at most once, the negative one first.
pub proof fn law_each_axis_flag_is_reported(negative: bool, decreasing: bool)
    ensures
        reasons_of(negative, decreasing).contains(AlignmentReason::NegativeAxis) == negative,
        reasons_of(negative, decreasing).contains(AlignmentReason::DecreasingAxis) == decreasing,
        reasons_of(negative, decreasing).len() == (if negative { 1int } else { 0 }) + (if decreasing { 1int } else { 0 }),
        negative ==> reasons_of(negative, decreasing)[0] == AlignmentReason::NegativeAxis,
{
    let r = reasons_of(negative, decreasing);
    if negative {
        assert(r[0] == AlignmentReason::NegativeAxis);
    }
    if decreasing {
        assert(r[r.len() - 1] == AlignmentReason::DecreasingAxis);
    }
    if r.contains(AlignmentReason::NegativeAxis) {
        let i = choose|i: int| 0 <= i < r.len() && r[i] == AlignmentReason::NegativeAxis;
        assert(negative);
    }
    if r.contains(AlignmentReason::DecreasingAxis) {
        let i = choose|i: int| 0 <= i < r.len() && r[i] == AlignmentReason::DecreasingAxis;
        assert(decreasing);
    }
}

/// Turns the two axis flags a query returned into reasons.
pub fn axis_reasons(negative: bool, decreasing: bool) -> (reasons: Vec<AlignmentReason>)
    ensures
        reasons@ == reasons_of(negative, decreasing),
        reasons@.contains(AlignmentReason::NegativeAxis) == negative,
        reasons@.contains(AlignmentReason::DecreasingAxis) == decreasing,
{
    proof {
        law_each_axis_flag_is_reported(negative, decreasing);
    }
    let mut reasons = Vec::with_capacity(2);
    if negative {
        reasons.push(AlignmentReason::NegativeAxis);
    }
    if decreasing {
        reasons.push(AlignmentReason::DecreasingAxis);
    }
    assert(reasons@ =~= reasons_of(negative, decreasing));
    reasons
}

/// The number of extrema buckets of a reduction: a quarter of its point
/// limit, at least one; a full query has none.
pub open spec fn alignment_buckets(reduction: AlignmentReduction) -> Option<int> {
    match reduction_max_points(reduction) {
        Some(m) => Some(if m / EXTREMA_PER_BUCKET as int >= 1 {
            m / EXTREMA_PER_BUCKET as int
        } else {
            1
        }),
        None => None,
    }
}

/// The bucket count of a reduction.
pub fn alignment_bucket_count(reduction: AlignmentReduction) -> (count: Option<usize>)
    ensures
        match count {
            Some(c) => alignment_buckets(reduction) == Some(c as int),
            None => alignment_buckets(reduction) is None,
        },
{
    match reduction.max_points() {
        None => None,
        Some(max_points) => {
            let quarter = max_points / EXTREMA_PER_BUCKET;
            Some(if quarter >= 1 { quarter } else { 1 })
        },
    }
}

/// The values bound ahead of every aligned query: the Parquet location when
/// reading files, the run id, the metric key and its encoded partition value,
/// and the run start when the axis is elapsed time.
pub open spec fn base_values_view(
    source: AlignmentSource,
    query: AlignmentQuery,
    run_start_millis: Option<i64>,
) -> Seq<SqlValueView> {
    (match source {
        AlignmentSource::Parquet(location) => seq![SqlValueView::Text(location@)],
        AlignmentSource::Project => Seq::empty(),
    }) + seq![
        SqlValueView::Text(query.run_id@),
        SqlValueView::Text(query.metric_key@),
        SqlValueView::Text(percent_encoded(query.metric_key@)),
    ] + (match query.axis {
        AlignmentAxis::ElapsedTime => seq![SqlValueView::NullableBigInt(run_start_millis)],
        AlignmentAxis::Step => Seq::empty(),
    })
}

/// The values bound to the axis-flag query.
pub fn base_values(source: AlignmentSource, query: &AlignmentQuery, run_start_millis: Option<i64>) -> (values: Vec<SqlValue>)
    ensures
        sql_values_view(values@) == base_values_view(source, *query, run_start_millis),
{
    let mut values: Vec<SqlValue> = Vec::with_capacity(5);
    match source {
        AlignmentSource::Parquet(location) => values.push(SqlValue::Text(location.to_owned())),
        AlignmentSource::Project => {},
    }
    values.push(SqlValue::Text(query.run_id.as_str().to_owned()));
    values.push(SqlValue::Text(query.metric_key.as_str().to_owned()));
    values.push(SqlValue::Text(percent_encode_metric_key(query.metric_key.as_str())));
    match query.axis {
        AlignmentAxis::ElapsedTime => values.push(SqlValue::NullableBigInt(run_start_millis)),
        AlignmentAxis::Step => {},
    }
    assert(sql_values_view(values@) =~= base_values_view(source, *query, run_start_millis));
    values
}

/// The values bound to the points query: the base values, the viewport
/// bounds for the inside range and the two neighbours, then the bucket count
/// of a screen-reduced query.
pub open spec fn query_values_view(
    source: AlignmentSource,
    query: AlignmentQuery,
    run_start_millis: Option<i64>,
    bucket_count: Option<usize>,
) -> Seq<SqlValueView> {
    let start = query.viewport.spec_start();
    let end = query.viewport.spec_end();
    base_values_view(source, query, run_start_millis) + seq![
        SqlValueView::BigInt(start),
        SqlValueView::BigInt(end),
        SqlValueView::BigInt(start),
        SqlValueView::BigInt(end),
    ] + (match bucket_count {
        Some(c) => seq![SqlValueView::BigInt(c as i64)],
        None => Seq::empty(),
    })
}

/// The values bound to the points query; a bucket count that does not fit a
/// signed 64-bit value is refused.
pub fn query_values(
    source: AlignmentSource,
    query: &AlignmentQuery,
    run_start_millis: Option<i64>,
    bucket_count: Option<usize>,
) -> (result: Result<Vec<SqlValue>, StorageError>)
    ensures
        match bucket_count {
            Some(c) if c > i64::MAX => result == Err::<Vec<SqlValue>, StorageError>(
                StorageError::QueryMaxPointsTooLarge {
                    max_points: if c > usize::MAX / EXTREMA_PER_BUCKET {
                        usize::MAX
                    } else {
                        (c * EXTREMA_PER_BUCKET) as usize
                    },
                },
            ),
            _ => result matches Ok(values) && sql_values_view(values@) == query_values_view(
                source,
                *query,
                run_start_millis,
                bucket_count,
            ),
        },
{
    let mut values = base_values(source, query, run_start_millis);
    let ghost base = values@;
    let start = query.viewport.start();
    let end = query.viewport.end();
    values.push(SqlValue::BigInt(start));
    values.push(SqlValue::BigInt(end));
    values.push(SqlValue::BigInt(start));
    values.push(SqlValue::BigInt(end));
    match bucket_count {
        Some(count) => {
            if count as u64 > i64::MAX as u64 {
                let max_points = if count > usize::MAX / EXTREMA_PER_BUCKET {
                    usize::MAX
                } else {
                    count * EXTREMA_PER_BUCKET
                };
                return Err(StorageError::QueryMaxPointsTooLarge { max_points });
            }
            values.push(SqlValue::BigInt(count as i64));
        },
        None => {},
    }
    assert(sql_values_view(values@) =~= query_values_view(
        source,
        *query,
        run_start_millis,
        bucket_count,
    ));
    Ok(values)
}

/// A run id and a metric key are both needed, and neither may be blank.
pub fn check_alignment_identity(query: &AlignmentQuery) -> (result: Result<(), StorageError>)
    ensures
        match result {
            Ok(()) => !is_blank(query.run_id@) && !is_blank(query.metric_key@),
            Err(error) => (is_blank(query.run_id@) || is_blank(query.metric_key@)) && error
                == StorageError::InvalidIdentity,
        },
{
    if text_is_blank(query.run_id.as_str()) || text_is_blank(query.metric_key.as_str()) {
        return Err(StorageError::InvalidIdentity);
    }
    Ok(())
}

/// The statements and bound values of one aligned query.
pub struct AlignedQueryPlan {
    pub reasons_sql: String,
    pub reasons_values: Vec<SqlValue>,
    pub points_sql: String,
    pub points_values: Vec<SqlValue>,
}

/// Plans an aligned metric query: blank identities are refused; otherwise
/// the axis-flag query and the points query with their bound values, the
/// points query reduced to screen buckets when the reduction has a limit.
pub fn plan_aligned_query(
    source: AlignmentSource,
    query: &AlignmentQuery,
    run_start_millis: Option<i64>,
) -> (result: Result<AlignedQueryPlan, StorageError>)
    ensures
        (is_blank(query.run_id@) || is_blank(query.metric_key@)) ==> result
            == Err::<AlignedQueryPlan, StorageError>(StorageError::InvalidIdentity),
        !(is_blank(query.run_id@) || is_blank(query.metric_key@)) ==> (result matches Ok(plan) && {
            let buckets = alignment_buckets(query.reduction);
            &&& plan.reasons_sql@ == axis_reasons_sql_text(source, query.axis)
            &&& sql_values_view(plan.reasons_values@) == base_values_view(
                source,
                *query,
                run_start_millis,
            )
            &&& plan.points_sql@ == aligned_points_sql_text(source, query.axis, buckets is Some)
            &&& sql_values_view(plan.points_values@) == query_values_view(
                source,
                *query,
                run_start_millis,
                match buckets {
                    Some(c) => Some(c as usize),
                    None => None,
                },
            )
        }),
{
    match check_alignment_identity(query) {
        Err(error) => return Err(error),
        Ok(()) => {},
    }
    let reasons_sql = axis_reasons_sql(source, query.axis);
    let reasons_values = base_values(source, query, run_start_millis);
    let bucket_count = alignment_bucket_count(query.reduction);
    let points_sql = aligned_points_sql(source, query.axis, bucket_count.is_some());
    assert(match bucket_count {
        Some(c) => c <= 250_000,
        None => true,
    });
    let points_values = match query_values(source, query, run_start_millis, bucket_count) {
        Ok(values) => values,
        Err(error) => return Err(error),
    };
    Ok(AlignedQueryPlan { reasons_sql, reasons_values, points_sql, points_values })
}

} // verus!
