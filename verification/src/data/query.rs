use vstd::prelude::*;

use crate::data::DataError;
use crate::text::{is_blank, percent_encode, percent_encoded, text_is_blank};

verus! {

/// The largest number of points one viewport query may return.
pub const MAX_QUERY_POINTS: usize = 1_000_000;

/// Points kept per bucket: first, last, minimum and maximum.
pub const EXTREMA_PER_BUCKET: usize = 4;

/// The effective-series viewport query: last write wins per
/// `(run_id, metric_key, step)`, the step bounds are half-open, and each
/// bucket keeps its extrema.
pub const METRIC_QUERY_SQL: &'static str = "WITH ranked AS (
         SELECT run_id, metric_key, step, timestamp, value_f64, ingested_at,
                row_number() OVER (
                    PARTITION BY run_id, metric_key, step
                    ORDER BY ingested_at DESC, filename DESC, file_row_number DESC
                ) AS write_rank
         FROM read_parquet(
             ?, hive_partitioning = true, union_by_name = true,
             filename = true, file_row_number = true
         )
         WHERE run_id = ? AND metric_key = ? AND metric_key_encoded = ?
           AND (? IS NULL OR step >= ?)
           AND (? IS NULL OR step < ?)
     ),
     effective AS (
         SELECT run_id, metric_key, step, timestamp, value_f64, ingested_at
         FROM ranked WHERE write_rank = 1
     ),
     numbered AS (
         SELECT *, row_number() OVER (ORDER BY step) - 1 AS ordinal,
                count(*) OVER ()::UBIGINT AS source_row_count
         FROM effective
     ),
     bucketed AS (
         SELECT *, floor(
             ordinal::DOUBLE * ?::DOUBLE / source_row_count::DOUBLE
         )::UBIGINT AS bucket
         FROM numbered
     ),
     candidates AS (
         SELECT *,
                row_number() OVER (PARTITION BY bucket ORDER BY step) AS first_rank,
                row_number() OVER (PARTITION BY bucket ORDER BY step DESC) AS last_rank,
                row_number() OVER (PARTITION BY bucket ORDER BY value_f64, step) AS min_rank,
                row_number() OVER (PARTITION BY bucket ORDER BY value_f64 DESC, step) AS max_rank
         FROM bucketed
     )
     SELECT run_id, metric_key, step, epoch_ms(timestamp), value_f64,
            epoch_ms(ingested_at), source_row_count
     FROM candidates
     WHERE first_rank = 1 OR last_rank = 1 OR min_rank = 1 OR max_rank = 1
     ORDER BY step";

/// A DuckDB-readable Parquet file, glob, or object-store URI.
#[derive(Clone, Debug, PartialEq, Eq)]
pub struct ParquetSource {
    location: String,
}

impl View for ParquetSource {
    type V = Seq<char>;

    closed spec fn view(&self) -> Seq<char> {
        self.location@
    }
}

impl ParquetSource {
    /// Accepts any location that is not blank.
    pub fn new(location: &str) -> (result: Result<ParquetSource, DataError>)
        ensures
            match result {
                Ok(source) => !is_blank(location@) && source@ == location@,
                Err(error) => is_blank(location@) && error == DataError::EmptySource,
            },
    {
        if text_is_blank(location) {
            return Err(DataError::EmptySource);
        }
        Ok(ParquetSource { location: location.to_owned() })
    }

    pub fn location(&self) -> (location: &str)
        ensures
            location@ == self@,
    {
        self.location.as_str()
    }
}

/// Optional half-open step bounds `[start, end)` applied before downsampling.
#[derive(Clone, Copy, Debug, PartialEq, Eq, Structural)]
pub struct StepViewport {
    pub start: Option<i64>,
    pub end: Option<i64>,
}

/// Whether two optional bounds form a usable half-open range.
pub open spec fn viewport_bounds_valid(start: Option<i64>, end: Option<i64>) -> bool {
    match (start, end) {
        (Some(s), Some(e)) => s < e,
        _ => true,
    }
}

impl Default for StepViewport {
    fn default() -> (viewport: StepViewport)
        ensures
            viewport.start is None && viewport.end is None,
    {
        StepViewport { start: None, end: None }
    }
}

impl StepViewport {
    /// Creates bounds, rejecting two bounds that are not increasing.
    pub fn new(start: Option<i64>, end: Option<i64>) -> (result: Result<StepViewport, DataError>)
        ensures
            match result {
                Ok(viewport) => viewport_bounds_valid(start, end) && viewport.start == start
                    && viewport.end == end,
                Err(error) => !viewport_bounds_valid(start, end) && error
                    == DataError::InvalidViewport,
            },
    {
        if let (Some(s), Some(e)) = (start, end) {
            if s >= e {
                return Err(DataError::InvalidViewport);
            }
        }
        Ok(StepViewport { start, end })
    }
}

/// A screen-derived upper bound on the points one query returns.
#[derive(Clone, Copy, Debug, PartialEq, Eq, Structural)]
pub struct QueryBudget {
    pixel_width: u32,
    points_per_pixel: u16,
}

/// The point limit of a budget: pixels times density, kept between one
/// bucket's worth of extrema and the global query maximum.
pub open spec fn budget_max_points(pixel_width: u32, points_per_pixel: u16) -> int {
    let product = pixel_width * points_per_pixel;
    if product < EXTREMA_PER_BUCKET {
        EXTREMA_PER_BUCKET as int
    } else if product > MAX_QUERY_POINTS {
        MAX_QUERY_POINTS as int
    } else {
        product
    }
}

impl QueryBudget {
    pub closed spec fn spec_pixel_width(self) -> u32 {
        self.pixel_width
    }

    pub closed spec fn spec_points_per_pixel(self) -> u16 {
        self.points_per_pixel
    }

    /// Creates a budget; both the width and the density must be positive.
    pub fn new(pixel_width: u32, points_per_pixel: u16) -> (result: Result<QueryBudget, DataError>)
        ensures
            match result {
                Ok(budget) => pixel_width > 0 && points_per_pixel > 0
                    && budget.spec_pixel_width() == pixel_width
                    && budget.spec_points_per_pixel() == points_per_pixel,
                Err(error) => (pixel_width == 0 || points_per_pixel == 0) && error
                    == DataError::InvalidQueryBudget,
            },
    {
        if pixel_width == 0 || points_per_pixel == 0 {
            return Err(DataError::InvalidQueryBudget);
        }
        Ok(QueryBudget { pixel_width, points_per_pixel })
    }

    /// The most points a query under this budget returns.
    pub fn max_points(self) -> (max_points: usize)
        ensures
            max_points == budget_max_points(self.spec_pixel_width(), self.spec_points_per_pixel()),
    {
        let w = self.pixel_width as u64;
        let p = self.points_per_pixel as u64;
        assert(w * p <= 0xffff_ffff * 0xffff) by (nonlinear_arith)
            requires
                w <= 0xffff_ffff,
                p <= 0xffff,
        ;
        let product = w * p;
        if product < EXTREMA_PER_BUCKET as u64 {
            EXTREMA_PER_BUCKET
        } else if product > MAX_QUERY_POINTS as u64 {
            MAX_QUERY_POINTS
        } else {
            product as usize
        }
    }
}

/// Validated inputs for one metric-series viewport query.
#[derive(Clone, Debug, PartialEq, Eq)]
pub struct MetricQuery {
    run_id: String,
    metric_key: String,
    viewport: StepViewport,
    budget: QueryBudget,
}

/// Execution choices derived from a viewport and a screen budget.
#[derive(Clone, Copy, Debug, PartialEq, Eq, Structural)]
pub struct MetricQueryPlan {
    pub viewport: StepViewport,
    pub max_points: usize,
    pub bucket_count: usize,
}

/// The number of extrema buckets for a point limit: a quarter of it, at least one.
pub open spec fn bucket_count_for(max_points: int) -> int {
    if max_points / EXTREMA_PER_BUCKET as int >= 1 {
        max_points / EXTREMA_PER_BUCKET as int
    } else {
        1
    }
}

/// The values bound, in order, to the placeholders of `METRIC_QUERY_SQL`.
#[derive(Clone, Debug, PartialEq, Eq)]
pub struct MetricQueryParameters {
    pub location: String,
    pub run_id: String,
    pub metric_key: String,
    pub metric_key_encoded: String,
    pub start: Option<i64>,
    pub end: Option<i64>,
    pub bucket_count: i64,
}

impl MetricQuery {
    pub closed spec fn spec_run_id(self) -> Seq<char> {
        self.run_id@
    }

    pub closed spec fn spec_metric_key(self) -> Seq<char> {
        self.metric_key@
    }

    pub closed spec fn spec_viewport(self) -> StepViewport {
        self.viewport
    }

    pub closed spec fn spec_budget(self) -> QueryBudget {
        self.budget
    }

    /// Creates a query for one effective metric series; neither identity may be blank.
    pub fn new(run_id: &str, metric_key: &str, viewport: StepViewport, budget: QueryBudget) -> (result:
        Result<MetricQuery, DataError>)
        ensures
            match result {
                Ok(query) => {
                    &&& !is_blank(run_id@) && !is_blank(metric_key@)
                    &&& query.spec_run_id() == run_id@
                    &&& query.spec_metric_key() == metric_key@
                    &&& query.spec_viewport() == viewport
                    &&& query.spec_budget() == budget
                },
                Err(error) => (is_blank(run_id@) || is_blank(metric_key@)) && error
                    == DataError::InvalidIdentity,
            },
    {
        if text_is_blank(run_id) || text_is_blank(metric_key) {
            return Err(DataError::InvalidIdentity);
        }
        Ok(MetricQuery {
            run_id: run_id.to_owned(),
            metric_key: metric_key.to_owned(),
            viewport,
            budget,
        })
    }

    /// The viewport, point limit and bucket count this query executes with.
    pub fn plan(&self) -> (plan: MetricQueryPlan)
        ensures
            plan.viewport == self.spec_viewport(),
            plan.max_points == budget_max_points(
                self.spec_budget().spec_pixel_width(),
                self.spec_budget().spec_points_per_pixel(),
            ),
            plan.bucket_count == bucket_count_for(plan.max_points as int),
    {
        let max_points = self.budget.max_points();
        let quarter = max_points / EXTREMA_PER_BUCKET;
        MetricQueryPlan {
            viewport: self.viewport,
            max_points,
            bucket_count: if quarter >= 1 {
                quarter
            } else {
                1
            },
        }
    }

    /// The values bound to `METRIC_QUERY_SQL` when this query reads `source`:
    /// the partition filter uses the percent-encoded metric key.
    pub fn parameters(&self, source: &ParquetSource) -> (parameters: MetricQueryParameters)
        ensures
            parameters.location@ == source@,
            parameters.run_id@ == self.spec_run_id(),
            parameters.metric_key@ == self.spec_metric_key(),
            parameters.metric_key_encoded@ == percent_encoded(self.spec_metric_key()),
            parameters.start == self.spec_viewport().start,
            parameters.end == self.spec_viewport().end,
            parameters.bucket_count == bucket_count_for(
                budget_max_points(
                    self.spec_budget().spec_pixel_width(),
                    self.spec_budget().spec_points_per_pixel(),
                ) as int,
            ),
    {
        let plan = self.plan();
        MetricQueryParameters {
            location: source.location().to_owned(),
            run_id: self.run_id.clone(),
            metric_key: self.metric_key.clone(),
            metric_key_encoded: percent_encode_metric_key(self.metric_key.as_str()),
            start: plan.viewport.start,
            end: plan.viewport.end,
            bucket_count: plan.bucket_count as i64,
        }
    }
}

/// Percent-encodes a metric key the way the Parquet partition column
/// `metric_key_encoded` stores it.
pub fn percent_encode_metric_key(value: &str) -> (encoded: String)
    ensures
        encoded@ == percent_encoded(value@),
{
    percent_encode(value)
}

} // verus!
