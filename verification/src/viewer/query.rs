use vstd::prelude::*;

use crate::model::run::RunId;
use crate::storage::alignment::{AlignmentQuery, AlignmentReduction};
use crate::viewer::model::{AlignmentQueryError, AlignmentViewport, CurveSelection};

verus! {

/// The overview point budget: one point per physical pixel, between 500 and 2,000.
pub open spec fn overview_points(physical_width: u32) -> int {
    if physical_width < 500 {
        500
    } else if physical_width > 2_000 {
        2_000
    } else {
        physical_width as int
    }
}

/// The detail point budget: two points per physical pixel, between 2,000 and 10,000.
pub open spec fn detail_points(physical_width: u32) -> int {
    let doubled = 2 * physical_width;
    if doubled < 2_000 {
        2_000
    } else if doubled > 10_000 {
        10_000
    } else {
        doubled
    }
}

/// Queries the full overview at one point per physical pixel, clamped.
pub fn overview_budget(physical_width: u32) -> (budget: u32)
    ensures
        budget == overview_points(physical_width),
{
    if physical_width < 500 {
        500
    } else if physical_width > 2_000 {
        2_000
    } else {
        physical_width
    }
}

/// Queries a detail viewport at two points per physical pixel, clamped; the
/// doubling saturates instead of overflowing.
pub fn detail_budget(physical_width: u32) -> (budget: u32)
    ensures
        budget == detail_points(physical_width),
{
    let doubled: u32 = if physical_width > u32::MAX / 2 {
        u32::MAX
    } else {
        physical_width * 2
    };
    if doubled < 2_000 {
        2_000
    } else if doubled > 10_000 {
        10_000
    } else {
        doubled
    }
}

/// The bounds after taking in one axis value.
pub open spec fn widen(bounds: Option<(i64, i64)>, value: i64) -> Option<(i64, i64)> {
    match bounds {
        Some((start, end)) => Some(
            (if value < start {
                value
            } else {
                start
            }, if value > end {
                value
            } else {
                end
            }),
        ),
        None => Some((value, value)),
    }
}

/// The bounds after taking in every axis value that lies inside `[low, high]`.
pub open spec fn widen_inside(
    bounds: Option<(i64, i64)>,
    values: Seq<i64>,
    low: i64,
    high: i64,
) -> Option<(i64, i64)>
    decreases values.len(),
{
    if values.len() == 0 {
        bounds
    } else {
        let earlier = widen_inside(bounds, values.drop_last(), low, high);
        let v = values.last();
        if low <= v && v <= high {
            widen(earlier, v)
        } else {
            earlier
        }
    }
}

/// Widens the real data range of drawn curves by the axis values of one
/// series that fall inside the queried viewport.
pub fn widen_real_bounds(bounds: Option<(i64, i64)>, axis_values: &[i64], viewport: AlignmentViewport) -> (widened: Option<(i64, i64)>)
    ensures
        widened == widen_inside(bounds, axis_values@, viewport.spec_start(), viewport.spec_end()),
{
    let low = viewport.start();
    let high = viewport.end();
    let mut current = bounds;
    let mut i: usize = 0;
    while i < axis_values.len()
        invariant
            i <= axis_values@.len(),
            low == viewport.spec_start(),
            high == viewport.spec_end(),
            current == widen_inside(bounds, axis_values@.subrange(0, i as int), low, high),
        decreases axis_values@.len() - i,
    {
        let value = axis_values[i];
        assert(axis_values@.subrange(0, i + 1).drop_last() =~= axis_values@.subrange(0, i as int));
        if low <= value && value <= high {
            current = match current {
                Some((start, end)) => Some(
                    (if value < start {
                        value
                    } else {
                        start
                    }, if value > end {
                        value
                    } else {
                        end
                    }),
                ),
                None => Some((value, value)),
            };
        }
        i = i + 1;
    }
    assert(axis_values@.subrange(0, axis_values@.len() as int) =~= axis_values@);
    current
}

/// The viewport spanned by the real data range, if any data was drawn.
pub fn real_range(bounds: Option<(i64, i64)>) -> (range: Result<Option<AlignmentViewport>, AlignmentQueryError>)
    ensures
        match bounds {
            None => range == Ok::<Option<AlignmentViewport>, AlignmentQueryError>(None),
            Some((start, end)) => if start <= end {
                range matches Ok(Some(v)) && v.spec_start() == start && v.spec_end() == end
            } else {
                range == Err::<Option<AlignmentViewport>, AlignmentQueryError>(AlignmentQueryError::InvalidViewport)
            },
        },
{
    match bounds {
        None => Ok(None),
        Some((start, end)) => match AlignmentViewport::new(start, end) {
            Ok(viewport) => Ok(Some(viewport)),
            Err(error) => Err(error),
        },
    }
}

/// The real data range gathered over a viewport stays inside it and never
/// runs backwards, so turning it into a viewport cannot fail.
pub proof fn law_real_range_lies_in_viewport(
    bounds: Option<(i64, i64)>,
    values: Seq<i64>,
    low: i64,
    high: i64,
)
    requires
        bounds matches Some((start, end)) ==> low <= start <= end <= high,
    ensures
        widen_inside(bounds, values, low, high) matches Some((start, end)) ==> low <= start <= end
            <= high,
    decreases values.len(),
{
    if values.len() > 0 {
        law_real_range_lies_in_viewport(bounds, values.drop_last(), low, high);
    }
}

/// The viewport an overview reads: the whole non-negative axis.
pub fn overview_viewport() -> (viewport: AlignmentViewport)
    ensures
        viewport.spec_start() == 0,
        viewport.spec_end() == i64::MAX,
{
    match AlignmentViewport::new(0, i64::MAX) {
        Ok(viewport) => viewport,
        Err(_) => vstd::pervasive::unreached(),
    }
}

/// The aligned query of each selected run over one viewport, all reduced to
/// the same screen budget of one point per budgeted pixel.
pub fn curve_queries(
    selection: &CurveSelection,
    run_ids: &Vec<RunId>,
    viewport: AlignmentViewport,
    point_budget: u32,
) -> (result: Result<Vec<AlignmentQuery>, AlignmentQueryError>)
    ensures
        point_budget == 0 ==> result == Err::<Vec<AlignmentQuery>, AlignmentQueryError>(
            AlignmentQueryError::InvalidBudget,
        ),
        point_budget > 0 ==> (result matches Ok(queries) && {
            &&& queries@.len() == run_ids@.len()
            &&& forall|i: int|
                0 <= i < queries@.len() ==> {
                    &&& (#[trigger] queries@[i]).run_id@ == run_ids@[i]@
                    &&& queries@[i].metric_key@ == selection.metric_key@
                    &&& queries@[i].axis == selection.axis
                    &&& queries@[i].viewport == viewport
                    &&& queries@[i].reduction == AlignmentReduction::ScreenBudget {
                        pixel_width: point_budget,
                        points_per_pixel: 1,
                    }
                }
        }),
{
    let reduction = match AlignmentReduction::screen_budget(point_budget, 1) {
        Ok(reduction) => reduction,
        Err(error) => return Err(error),
    };
    let mut queries: Vec<AlignmentQuery> = Vec::with_capacity(run_ids.len());
    let mut i: usize = 0;
    while i < run_ids.len()
        invariant
            i <= run_ids@.len(),
            queries@.len() == i,
            reduction == (AlignmentReduction::ScreenBudget {
                pixel_width: point_budget,
                points_per_pixel: 1,
            }),
            forall|j: int|
                0 <= j < i ==> {
                    &&& (#[trigger] queries@[j]).run_id@ == run_ids@[j]@
                    &&& queries@[j].metric_key@ == selection.metric_key@
                    &&& queries@[j].axis == selection.axis
                    &&& queries@[j].viewport == viewport
                    &&& queries@[j].reduction == reduction
                },
        decreases run_ids@.len() - i,
    {
        queries.push(
            AlignmentQuery {
                run_id: run_ids[i].clone(),
                metric_key: selection.metric_key.clone(),
                axis: selection.axis,
                viewport,
                reduction,
            },
        );
        i = i + 1;
    }
    Ok(queries)
}

/// Widening never forgets: the result covers the bounds it started from and
/// every value that lies inside the viewport, and it is empty only when it
/// started empty and no value lay inside the viewport.
pub proof fn law_widening_covers_earlier_bounds_and_inside_values(
    bounds: Option<(i64, i64)>,
    values: Seq<i64>,
    low: i64,
    high: i64,
)
    ensures
        bounds matches Some((start, end)) ==> (widen_inside(bounds, values, low, high) matches Some(
            (s, e),
        ) && s <= start && end <= e),
        forall|i: int|
            0 <= i < values.len() && low <= #[trigger] values[i] <= high ==> (widen_inside(
                bounds,
                values,
                low,
                high,
            ) matches Some((s, e)) && s <= values[i] <= e),
        widen_inside(bounds, values, low, high) is None ==> bounds is None && forall|i: int|
            0 <= i < values.len() ==> !(low <= #[trigger] values[i] <= high),
    decreases values.len(),
{
    if values.len() > 0 {
        let rest = values.drop_last();
        law_widening_covers_earlier_bounds_and_inside_values(bounds, rest, low, high);
        let earlier = widen_inside(bounds, rest, low, high);
        let result = widen_inside(bounds, values, low, high);
        assert forall|i: int|
            0 <= i < values.len() && low <= #[trigger] values[i] <= high implies (result matches Some(
                (s, e),
            ) && s <= values[i] <= e) by {
            if i < values.len() - 1 {
                assert(rest[i] == values[i]);
            }
        }
        assert forall|i: int| 0 <= i < values.len() && result is None implies !(low <= #[trigger] values[i] <= high) by {
            if i < values.len() - 1 {
                assert(rest[i] == values[i]);
            }
        }
    }
}

} // verus!
