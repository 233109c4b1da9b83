use vstd::prelude::*;

use crate::model::metric::MetricKey;
use crate::model::run::{Project, ProjectId, Run, RunId};

verus! {

/// The identities a catalog read returned.
pub struct CatalogSnapshot {
    pub projects: Vec<Project>,
    pub runs: Vec<Run>,
    pub metric_keys: Vec<MetricKey>,
}

/// The project ids of a list of projects.
pub open spec fn project_ids(projects: Seq<Project>) -> Seq<Seq<char>> {
    projects.map_values(|p: Project| p.project_id@)
}

/// The run ids of a list of runs.
pub open spec fn run_ids_of(runs: Seq<Run>) -> Seq<Seq<char>> {
    runs.map_values(|r: Run| r.run_id@)
}

/// The names of a list of metric keys.
pub open spec fn metric_key_names(keys: Seq<MetricKey>) -> Seq<Seq<char>> {
    keys.map_values(|k: MetricKey| k@)
}

/// The run ids of a list of identities.
pub open spec fn ids_view(ids: Seq<RunId>) -> Seq<Seq<char>> {
    ids.map_values(|r: RunId| r@)
}

/// What a catalog read should list: the selected project's runs and the
/// metric keys of the selected runs.
#[derive(Debug, Default, PartialEq, Eq)]
pub struct DiscoveryRequest {
    pub project_id: Option<ProjectId>,
    pub run_ids: Vec<RunId>,
}

/// The axis along which curves are aligned.
#[derive(Clone, Copy, Debug, PartialEq, Eq, Structural, Hash)]
pub enum AlignmentAxis {
    Step,
    ElapsedTime,
}

/// A closed range `[start, end]` on the alignment axis.
#[derive(Clone, Copy, Debug, PartialEq, Eq, Structural)]
pub struct AlignmentViewport {
    start: i64,
    end: i64,
}

/// Failures while planning an aligned query.
#[derive(Clone, Copy, Debug, PartialEq, Eq, Structural)]
pub enum AlignmentQueryError {
    InvalidViewport,
    InvalidBudget,
}

impl AlignmentViewport {
    pub closed spec fn spec_start(self) -> i64 {
        self.start
    }

    pub closed spec fn spec_end(self) -> i64 {
        self.end
    }

    /// Creates a closed viewport; the start may not lie after the end.
    pub fn new(start: i64, end: i64) -> (result: Result<AlignmentViewport, AlignmentQueryError>)
        ensures
            match result {
                Ok(viewport) => start <= end && viewport.spec_start() == start
                    && viewport.spec_end() == end,
                Err(error) => start > end && error == AlignmentQueryError::InvalidViewport,
            },
    {
        if start > end {
            return Err(AlignmentQueryError::InvalidViewport);
        }
        Ok(AlignmentViewport { start, end })
    }

    pub fn start(&self) -> (start: i64)
        ensures
            start == self.spec_start(),
    {
        self.start
    }

    pub fn end(&self) -> (end: i64)
        ensures
            end == self.spec_end(),
    {
        self.end
    }
}

/// The runs, metric and axis that overview and detail queries share.
#[derive(Clone, Debug, PartialEq, Eq)]
pub struct CurveSelection {
    pub run_ids: Vec<RunId>,
    pub metric_key: MetricKey,
    pub axis: AlignmentAxis,
}

/// A query of the whole non-negative axis.
#[derive(Clone, Debug, PartialEq, Eq)]
pub struct OverviewRequest {
    pub selection: CurveSelection,
    pub physical_width: u32,
}

/// A query of one closed viewport.
#[derive(Clone, Debug, PartialEq, Eq)]
pub struct DetailRequest {
    pub selection: CurveSelection,
    pub viewport: AlignmentViewport,
    pub physical_width: u32,
}

} // verus!
