use vstd::prelude::*;

use crate::engine::bootstrap::{sql_literal, sql_string_literal};
use crate::engine::error::EngineError;
use crate::text::{push_char, text_equals};
use vstd::string::StringExecFns;

verus! {

/// How the write store reads a metric series.
#[derive(Clone, Copy, Debug, PartialEq, Eq, Structural)]
pub enum MetricReadPlan {
    /// Every effective point.
    Full,
    /// At most `max_points` points picked by DuckDB's LTTB.
    Downsample { max_points: i64 },
}

/// Chooses how the write store reads a series of `row_count` effective
/// points under a point limit: no limit, or a limit the series already
/// meets, reads everything; a larger series is downsampled, with a limit
/// DuckDB can take as a signed 64-bit value.
pub fn write_store_read_plan(max_points: Option<usize>, row_count: u64) -> (result: Result<
    MetricReadPlan,
    EngineError,
>)
    ensures
        match max_points {
            None => result == Ok::<MetricReadPlan, EngineError>(MetricReadPlan::Full),
            Some(m) => if row_count <= m {
                result == Ok::<MetricReadPlan, EngineError>(MetricReadPlan::Full)
            } else if m > i64::MAX {
                result == Err::<MetricReadPlan, EngineError>(
                    EngineError::MetricQueryMaxPointsTooLarge { max_points: m },
                )
            } else {
                result == Ok::<MetricReadPlan, EngineError>(
                    MetricReadPlan::Downsample { max_points: m as i64 },
                )
            },
        },
{
    match max_points {
        None => Ok(MetricReadPlan::Full),
        Some(m) => {
            if row_count <= m as u64 {
                Ok(MetricReadPlan::Full)
            } else if m as u64 > i64::MAX as u64 {
                Err(EngineError::MetricQueryMaxPointsTooLarge { max_points: m })
            } else {
                Ok(MetricReadPlan::Downsample { max_points: m as i64 })
            }
        },
    }
}

/// Checks the point limit of a query-store read: none reads everything; a
/// limit keeps at least the first and last point, so it must be two or more.
pub fn query_store_point_limit(max_points: Option<usize>) -> (result: Result<
    Option<usize>,
    EngineError,
>)
    ensures
        match max_points {
            None => result == Ok::<Option<usize>, EngineError>(None),
            Some(m) => if m < 2 {
                result == Err::<Option<usize>, EngineError>(
                    EngineError::MetricQueryMaxPointsTooSmall { max_points: m },
                )
            } else {
                result == Ok::<Option<usize>, EngineError>(Some(m))
            },
        },
{
    match max_points {
        None => Ok(None),
        Some(m) => if m < 2 {
            Err(EngineError::MetricQueryMaxPointsTooSmall { max_points: m })
        } else {
            Ok(Some(m))
        },
    }
}

/// The statement that loads the LTTB extension from a file.
pub open spec fn lttb_load_statement_text(path: Seq<char>) -> Seq<char> {
    "LOAD "@ + sql_literal(path) + ";"@
}

/// Builds `LOAD '<path>';` with the path quoted as a SQL literal.
pub fn lttb_load_statement(path: &str) -> (statement: String)
    ensures
        statement@ == lttb_load_statement_text(path@),
{
    let literal = sql_string_literal(path);
    let mut statement = String::from_str("LOAD ");
    statement.append(literal.as_str());
    statement.append(";");
    statement
}

/// Where the LTTB extension may come from when it is not installed.
#[derive(Debug, PartialEq, Eq)]
pub enum LttbSource {
    /// A local build named by `PULSEON_LTTB_EXTENSION_PATH`.
    ExtensionPath(String),
    /// The DuckDB community repository, allowed by `PULSEON_LTTB_AUTO_INSTALL=1`.
    Community,
    /// Neither was configured.
    NotConfigured,
}

/// Chooses where to load LTTB from once loading the installed extension
/// failed: a configured local build first, then a download from the community
/// repository when auto-install is switched on with `1`, else nowhere.
pub fn lttb_source(extension_path: Option<String>, auto_install: Option<&str>) -> (source: LttbSource)
    ensures
        match extension_path {
            Some(path) => source matches LttbSource::ExtensionPath(p) && p@ == path@,
            None => if auto_install matches Some(flag) && flag@ == "1"@ {
                source == LttbSource::Community
            } else {
                source == LttbSource::NotConfigured
            },
        },
{
    match extension_path {
        Some(path) => LttbSource::ExtensionPath(path),
        None => match auto_install {
            Some(flag) => if text_equals(flag, "1") {
                LttbSource::Community
            } else {
                LttbSource::NotConfigured
            },
            None => LttbSource::NotConfigured,
        },
    }
}

/// The failure reported when LTTB is neither installed nor allowed to be fetched.
pub open spec fn lttb_not_configured_message() -> Seq<char> {
    "lttb is not installed; set PULSEON_LTTB_AUTO_INSTALL=1 to install it from the DuckDB community repository or PULSEON_LTTB_EXTENSION_PATH to load a local build"@
}

/// The error of a missing LTTB extension that may not be fetched.
pub fn lttb_not_configured() -> (error: EngineError)
    ensures
        error matches EngineError::LttbExtensionUnavailable { message } && message@
            == lttb_not_configured_message(),
{
    EngineError::LttbExtensionUnavailable {
        message: String::from_str(
            "lttb is not installed; set PULSEON_LTTB_AUTO_INSTALL=1 to install it from the DuckDB community repository or PULSEON_LTTB_EXTENSION_PATH to load a local build",
        ),
    }
}

/// The message of an extension that loaded but registered no `lttb` function.
pub open spec fn lttb_missing_message(from_path: bool) -> Seq<char> {
    if from_path {
        "LOAD lttb from PULSEON_LTTB_EXTENSION_PATH did not register lttb"@
    } else {
        "INSTALL/LOAD lttb did not register lttb"@
    }
}

/// Settles an attempt to load the LTTB extension, from a configured path or
/// from the community repository: it succeeds only when the statement ran
/// and the `lttb` function is then available.
pub fn lttb_load_result(executed: Result<(), String>, registered: bool, from_path: bool) -> (result:
    Result<(), EngineError>)
    ensures
        match executed {
            Ok(()) => if registered {
                result is Ok
            } else {
                result matches Err(EngineError::LttbExtensionUnavailable { message }) && message@
                    == lttb_missing_message(from_path)
            },
            Err(m) => result matches Err(EngineError::LttbExtensionUnavailable { message })
                && message@ == m@,
        },
{
    match executed {
        Ok(()) => {
            if registered {
                Ok(())
            } else if from_path {
                Err(
                    EngineError::LttbExtensionUnavailable {
                        message: String::from_str(
                            "LOAD lttb from PULSEON_LTTB_EXTENSION_PATH did not register lttb",
                        ),
                    },
                )
            } else {
                Err(
                    EngineError::LttbExtensionUnavailable {
                        message: String::from_str("INSTALL/LOAD lttb did not register lttb"),
                    },
                )
            }
        },
        Err(message) => Err(EngineError::LttbExtensionUnavailable { message }),
    }
}

/// The opening of the summaries statements, up to the requested rows.
pub const REQUESTED_HEAD: &'static str = "WITH requested(run_id, ordinal) AS (VALUES ";

/// The rest of the write store's summaries statement: the stored aggregate
/// of each requested run, in request order.
pub const WRITE_SUMMARIES_TAIL: &'static str = ")\n             SELECT summary.run_id, summary.metric_key, summary.effective_count,\n                    summary.last_step, summary.last_value_f64, summary.min_value_f64,\n                    summary.max_value_f64\n             FROM dl.metric_aggregates AS summary\n             JOIN requested ON summary.run_id = requested.run_id\n             WHERE summary.metric_key = ?\n             ORDER BY requested.ordinal";

/// The rest of the query store's summaries statement: stored aggregates of
/// finished runs and aggregates computed from the effective points of
/// running ones, in request order.
pub const QUERY_SUMMARIES_TAIL: &'static str = ")\n             SELECT run_id, metric_key, effective_count, last_step, last_value_f64,\n                    min_value_f64, max_value_f64\n             FROM (\n                 SELECT requested.ordinal, summary.*\n                 FROM requested\n                 JOIN pulseon_runs AS run USING (run_id)\n                 JOIN pulseon_metric_aggregates AS summary USING (run_id)\n                 WHERE run.status <> 'running' AND summary.metric_key = ?\n                 UNION ALL\n                 SELECT requested.ordinal, points.run_id, points.metric_key,\n                        count(*) AS effective_count, max(points.step) AS last_step,\n                        arg_max(points.value_f64, points.step) AS last_value_f64,\n                        min(points.value_f64) AS min_value_f64,\n                        max(points.value_f64) AS max_value_f64\n                 FROM requested\n                 JOIN pulseon_runs AS run USING (run_id)\n                 JOIN (\n                     SELECT *, row_number() OVER (\n                         PARTITION BY run_id, metric_key, step\n                         ORDER BY ingested_at DESC, rowid DESC\n                     ) AS write_rank\n                     FROM dl.metric_points\n                     WHERE metric_key = ?\n                 ) AS points USING (run_id)\n                 WHERE run.status = 'running' AND points.write_rank = 1\n                 GROUP BY requested.ordinal, points.run_id, points.metric_key\n             )\n             ORDER BY ordinal";

/// The decimal digit character of a value below ten.
pub open spec fn digit_char(d: nat) -> char {
    (48 + d) as char
}

/// The decimal text of a natural number.
pub open spec fn decimal_text(n: nat) -> Seq<char>
    decreases n,
{
    if n < 10 {
        seq![digit_char(n)]
    } else {
        decimal_text(n / 10).push(digit_char(n % 10))
    }
}

/// Appends the decimal text of `n`.
fn push_decimal(text: &mut String, n: usize)
    ensures
        final(text)@ == old(text)@ + decimal_text(n as nat),
    decreases n,
{
    if n >= 10 {
        push_decimal(text, n / 10);
    }
    let digit = (n % 10) as u8;
    push_char(text, (48 + digit) as char);
    assert(final(text)@ =~= old(text)@ + decimal_text(n as nat));
}

/// The rows `(?, 0), (?, 1), ...` that bind each requested run to its position.
pub open spec fn requested_rows_text(count: nat) -> Seq<char>
    decreases count,
{
    if count == 0 {
        Seq::empty()
    } else {
        let earlier = requested_rows_text((count - 1) as nat);
        (if count == 1 {
            earlier
        } else {
            earlier + ", "@
        }) + "(?, "@ + decimal_text((count - 1) as nat) + ")"@
    }
}

/// Builds the requested rows for `count` runs.
pub fn requested_rows(count: usize) -> (rows: String)
    ensures
        rows@ == requested_rows_text(count as nat),
{
    let mut rows = String::new();
    let mut i: usize = 0;
    while i < count
        invariant
            i <= count,
            rows@ == requested_rows_text(i as nat),
        decreases count - i,
    {
        if i > 0 {
            rows.append(", ");
        }
        rows.append("(?, ");
        push_decimal(&mut rows, i);
        rows.append(")");
        i = i + 1;
    }
    rows
}

/// The write store's summaries statement for `count` requested runs.
pub open spec fn write_summaries_sql_text(count: nat) -> Seq<char> {
    REQUESTED_HEAD@ + requested_rows_text(count) + WRITE_SUMMARIES_TAIL@
}

/// The query store's summaries statement for `count` requested runs.
pub open spec fn query_summaries_sql_text(count: nat) -> Seq<char> {
    REQUESTED_HEAD@ + requested_rows_text(count) + QUERY_SUMMARIES_TAIL@
}

/// The summaries statement the write store runs; the run ids are bound in
/// order, then the metric key.
pub fn write_summaries_sql(count: usize) -> (sql: String)
    ensures
        sql@ == write_summaries_sql_text(count as nat),
{
    let rows = requested_rows(count);
    let mut sql = String::from_str(REQUESTED_HEAD);
    sql.append(rows.as_str());
    sql.append(WRITE_SUMMARIES_TAIL);
    sql
}

/// The summaries statement the query store runs; the run ids are bound in
/// order, then the metric key twice.
pub fn query_summaries_sql(count: usize) -> (sql: String)
    ensures
        sql@ == query_summaries_sql_text(count as nat),
{
    let rows = requested_rows(count);
    let mut sql = String::from_str(REQUESTED_HEAD);
    sql.append(rows.as_str());
    sql.append(QUERY_SUMMARIES_TAIL);
    sql
}

} // verus!
