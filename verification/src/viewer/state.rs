use vstd::prelude::*;

use crate::engine::write_rows::status_text;
use crate::model::metric::MetricKey;
use crate::model::run::{ProjectId, Run, RunId};
use crate::text::{has_infix, text_contains, text_to_lowercase, text_trim, trimmed, unicode_lowercase};
use crate::viewer::model::{ids_view, AlignmentAxis, CatalogSnapshot, metric_key_names, project_ids, run_ids_of};
use crate::viewer::worker::{Generation, ReadEvent, ReadKind, ReadRequest, ReadSnapshot, request_kind, snapshot_kind};

verus! {

/// The most runs the viewer compares at once.
pub const MAX_SELECTED_RUNS: usize = 10;

/// Whether a run filter query matches a run's name, id or status: the query
/// is trimmed and lower-cased; an empty query matches everything; name and id
/// are compared lower-cased, the status as stored.
pub open spec fn filter_matches(
    name: Seq<char>,
    run_id: Seq<char>,
    status: Seq<char>,
    query: Seq<char>,
) -> bool {
    let q = unicode_lowercase(trimmed(query));
    ||| q.len() == 0
    ||| has_infix(unicode_lowercase(name), q)
    ||| has_infix(unicode_lowercase(run_id), q)
    ||| has_infix(status, q)
}

/// Matches a run filter query against the fields of a run.
pub fn run_fields_match_filter(name: &str, run_id: &str, status: &str, query: &str) -> (matched:
    bool)
    ensures
        matched == filter_matches(name@, run_id@, status@, query@),
{
    let query = text_to_lowercase(text_trim(query));
    if query.as_str().is_empty() {
        return true;
    }
    let name = text_to_lowercase(name);
    if text_contains(name.as_str(), query.as_str()) {
        return true;
    }
    let run_id = text_to_lowercase(run_id);
    if text_contains(run_id.as_str(), query.as_str()) {
        return true;
    }
    text_contains(status, query.as_str())
}

/// Matches a run by name, identifier, or lifecycle status.
pub fn run_matches_filter(run: &Run, query: &str) -> (matched: bool)
    ensures
        matched == filter_matches(run.name@, run.run_id@, status_text(run.status), query@),
{
    run_fields_match_filter(
        run.name.as_str(),
        run.run_id.as_str(),
        crate::engine::write_rows::status_as_str(run.status),
        query,
    )
}

/// The view of an optional identity.
pub open spec fn opt_view<T: View>(value: Option<T>) -> Option<T::V> {
    match value {
        Some(v) => Some(v@),
        None => None,
    }
}

fn same_project(a: &Option<ProjectId>, b: &Option<ProjectId>) -> (same: bool)
    ensures
        same == (opt_view(*a) == opt_view(*b)),
{
    match (a, b) {
        (Some(x), Some(y)) => x.same_as(y),
        (None, None) => true,
        _ => false,
    }
}

fn same_metric(a: &Option<MetricKey>, b: &Option<MetricKey>) -> (same: bool)
    ensures
        same == (opt_view(*a) == opt_view(*b)),
{
    match (a, b) {
        (Some(x), Some(y)) => x.same_as(y),
        (None, None) => true,
        _ => false,
    }
}

/// The index of the first occurrence of `run_id`, if any.
fn position_of(ids: &Vec<RunId>, run_id: &RunId) -> (found: Option<usize>)
    ensures
        match found {
            Some(i) => i < ids@.len() && ids@[i as int]@ == run_id@ && forall|j: int|
                0 <= j < i ==> (#[trigger] ids@[j])@ != run_id@,
            None => !ids_view(ids@).contains(run_id@),
        },
{
    let mut i: usize = 0;
    while i < ids.len()
        invariant
            i <= ids@.len(),
            forall|j: int| 0 <= j < i ==> (#[trigger] ids@[j])@ != run_id@,
        decreases ids@.len() - i,
    {
        if ids[i].same_as(run_id) {
            return Some(i);
        }
        i = i + 1;
    }
    proof {
        if ids_view(ids@).contains(run_id@) {
            let k = choose|k: int| 0 <= k < ids_view(ids@).len() && ids_view(ids@)[k] == run_id@;
            assert(ids@[k]@ == run_id@);
        }
    }
    None
}

fn contains_run(ids: &Vec<RunId>, run_id: &RunId) -> (found: bool)
    ensures
        found == ids_view(ids@).contains(run_id@),
{
    match position_of(ids, run_id) {
        Some(i) => {
            assert(ids_view(ids@)[i as int] == run_id@);
            true
        },
        None => false,
    }
}

fn same_ids(a: &Vec<RunId>, b: &Vec<RunId>) -> (same: bool)
    ensures
        same == (ids_view(a@) == ids_view(b@)),
{
    if a.len() != b.len() {
        assert(ids_view(a@).len() != ids_view(b@).len());
        return false;
    }
    let mut i: usize = 0;
    while i < a.len()
        invariant
            a@.len() == b@.len(),
            i <= a@.len(),
            forall|j: int| 0 <= j < i ==> (#[trigger] a@[j])@ == b@[j]@,
        decreases a@.len() - i,
    {
        if !a[i].same_as(&b[i]) {
            assert(ids_view(a@)[i as int] != ids_view(b@)[i as int]);
            return false;
        }
        i = i + 1;
    }
    assert(ids_view(a@) =~= ids_view(b@));
    true
}

/// Stable identities selected by the viewer independently of rendered widgets.
#[derive(Debug, Default, PartialEq, Eq)]
pub struct ViewerSelection {
    pub project_id: Option<ProjectId>,
    pub run_ids: Vec<RunId>,
    pub metric_key: Option<MetricKey>,
}

impl View for ViewerSelection {
    type V = (Option<Seq<char>>, Seq<Seq<char>>, Option<Seq<char>>);

    open spec fn view(&self) -> (Option<Seq<char>>, Seq<Seq<char>>, Option<Seq<char>>) {
        (opt_view(self.project_id), ids_view(self.run_ids@), opt_view(self.metric_key))
    }
}

/// The selection of nothing.
pub open spec fn empty_selection() -> (Option<Seq<char>>, Seq<Seq<char>>, Option<Seq<char>>) {
    (None, Seq::empty(), None)
}

impl ViewerSelection {
    pub fn empty() -> (selection: ViewerSelection)
        ensures
            selection@ == empty_selection(),
    {
        let selection = ViewerSelection { project_id: None, run_ids: Vec::new(), metric_key: None };
        assert(selection@ =~= empty_selection());
        selection
    }

    fn same_as(&self, other: &ViewerSelection) -> (same: bool)
        ensures
            same == (self@ == other@),
    {
        same_project(&self.project_id, &other.project_id) && same_ids(
            &self.run_ids,
            &other.run_ids,
        ) && same_metric(&self.metric_key, &other.metric_key)
    }
}

/// Whether a worker event changed the current viewer state.
#[derive(Clone, Copy, Debug, PartialEq, Eq, Structural)]
pub enum ApplyOutcome {
    Applied,
    IgnoredStale,
    IgnoredMismatched,
}

/// Invalid user selection transitions.
#[derive(Clone, Copy, Debug, PartialEq, Eq, Structural)]
pub enum SelectionError {
    RunLimit,
}

/// The slot of a result stream in the table of expected generations.
pub open spec fn kind_slot(kind: ReadKind) -> int {
    match kind {
        ReadKind::Catalog => 0,
        ReadKind::Overview => 1,
        ReadKind::Detail => 2,
    }
}

/// The slot of a result stream in the table of expected generations.
pub fn kind_index(kind: ReadKind) -> (index: usize)
    ensures
        index == kind_slot(kind),
{
    match kind {
        ReadKind::Catalog => 0,
        ReadKind::Overview => 1,
        ReadKind::Detail => 2,
    }
}

/// Renderer-independent reconciler of read snapshots and user selections.
///
/// `C` is the curve snapshot the read worker returns, `B` the brush the
/// renderer keeps over the overview.
pub struct ViewerCore<C, B> {
    selection: ViewerSelection,
    axis: AlignmentAxis,
    brush: Option<B>,
    catalog: Option<CatalogSnapshot>,
    overview: Option<C>,
    detail: Option<C>,
    expected: [Option<Generation>; 3],
    last_error: Option<String>,
}

/// The abstract state of a viewer core.
pub struct ViewerState<C, B> {
    pub selection: (Option<Seq<char>>, Seq<Seq<char>>, Option<Seq<char>>),
    pub axis: AlignmentAxis,
    pub brush: Option<B>,
    pub catalog: Option<CatalogSnapshot>,
    pub overview: Option<C>,
    pub detail: Option<C>,
    pub expected: Seq<Option<Generation>>,
    pub last_error: Option<Seq<char>>,
}

/// The state of a core that has nothing selected, loaded or pending.
pub open spec fn initial_state<C, B>(state: ViewerState<C, B>) -> bool {
    &&& state.selection == empty_selection()
    &&& state.axis == AlignmentAxis::Step
    &&& state.brush is None
    &&& state.catalog is None
    &&& state.overview is None
    &&& state.detail is None
    &&& state.expected == seq![None::<Generation>, None, None]
    &&& state.last_error is None
}

/// `after` is `before` with every curve-dependent value cleared: brush,
/// overview, detail, their pending generations, and the last error.
pub open spec fn curves_cleared<C, B>(before: ViewerState<C, B>, after: ViewerState<C, B>) -> bool {
    &&& after.axis == before.axis
    &&& after.brush is None
    &&& after.overview is None
    &&& after.detail is None
    &&& after.expected == seq![before.expected[0], None, None]
    &&& after.last_error is None
}

/// The run ids that survive a catalog refresh: those listed in the catalog
/// that were selected before, in catalog order.
pub open spec fn surviving_runs(catalog: CatalogSnapshot, selected: Seq<Seq<char>>) -> Seq<
    Seq<char>,
> {
    run_ids_of(catalog.runs@).filter(|id: Seq<char>| selected.contains(id))
}

/// The selection kept after a catalog refresh: nothing when the selected
/// project is gone; otherwise the surviving runs, and the metric key only if
/// the catalog still lists it.
pub open spec fn refreshed_selection(
    catalog: CatalogSnapshot,
    selection: (Option<Seq<char>>, Seq<Seq<char>>, Option<Seq<char>>),
) -> (Option<Seq<char>>, Seq<Seq<char>>, Option<Seq<char>>) {
    match selection.0 {
        Some(p) if project_ids(catalog.projects@).contains(p) => (
            selection.0,
            surviving_runs(catalog, selection.1),
            match selection.2 {
                Some(k) if !metric_key_names(catalog.metric_keys@).contains(k) => None,
                _ => selection.2,
            },
        ),
        _ => empty_selection(),
    }
}

/// The effect of applying a catalog snapshot.
pub open spec fn catalog_applied<C, B>(
    before: ViewerState<C, B>,
    after: ViewerState<C, B>,
    catalog: CatalogSnapshot,
) -> bool {
    let selection = refreshed_selection(catalog, before.selection);
    &&& after.selection == selection
    &&& after.catalog == Some(catalog)
    &&& after.axis == before.axis
    &&& after.brush == before.brush
    &&& after.last_error == before.last_error
    &&& if selection == before.selection {
        &&& after.overview == before.overview
        &&& after.detail == before.detail
        &&& after.expected == before.expected.update(0, None)
    } else {
        &&& after.overview is None
        &&& after.detail is None
        &&& after.expected == seq![None::<Generation>, None, None]
    }
}

impl<C, B> ViewerCore<C, B> {
    pub closed spec fn state(&self) -> ViewerState<C, B> {
        ViewerState {
            selection: self.selection@,
            axis: self.axis,
            brush: self.brush,
            catalog: self.catalog,
            overview: self.overview,
            detail: self.detail,
            expected: self.expected@,
            last_error: opt_view(self.last_error),
        }
    }

    /// A core with nothing selected, loaded or pending.
    pub fn empty() -> (core: Self)
        ensures
            initial_state(core.state()),
    {
        let core = ViewerCore {
            selection: ViewerSelection::empty(),
            axis: AlignmentAxis::Step,
            brush: None,
            catalog: None,
            overview: None,
            detail: None,
            expected: [None, None, None],
            last_error: None,
        };
        assert(core.state().expected =~= seq![None::<Generation>, None, None]);
        core
    }

    /// A core that starts from a given selection.
    pub fn new(selection: ViewerSelection) -> (core: Self)
        ensures
            core.state().selection == selection@,
            core.state().axis == AlignmentAxis::Step,
            core.state().brush is None,
            core.state().catalog is None,
            core.state().overview is None,
            core.state().detail is None,
            core.state().expected == seq![None::<Generation>, None, None],
            core.state().last_error is None,
    {
        let core = ViewerCore {
            selection,
            axis: AlignmentAxis::Step,
            brush: None,
            catalog: None,
            overview: None,
            detail: None,
            expected: [None, None, None],
            last_error: None,
        };
        assert(core.state().expected =~= seq![None::<Generation>, None, None]);
        core
    }

    pub fn selection(&self) -> (selection: &ViewerSelection)
        ensures
            selection@ == self.state().selection,
    {
        &self.selection
    }

    pub fn axis(&self) -> (axis: AlignmentAxis)
        ensures
            axis == self.state().axis,
    {
        self.axis
    }

    pub fn brush(&self) -> (brush: Option<&B>)
        ensures
            match brush {
                Some(b) => self.state().brush == Some(*b),
                None => self.state().brush is None,
            },
    {
        self.brush.as_ref()
    }

    /// Replaces the brush, leaving every other value as it was.
    /// The overview brush, for the renderer to move in place.
    pub fn brush_mut(&mut self) -> (brush: Option<&mut B>)
        ensures
            match brush {
                Some(b) => {
                    &&& old(self).state().brush == Some(*b)
                    &&& final(self).state() == (ViewerState { brush: Some(*final(b)), ..old(self).state() })
                },
                None => old(self).state().brush is None && final(self).state() == old(self).state(),
            },
    {
        self.brush.as_mut()
    }

    pub fn set_brush(&mut self, brush: Option<B>)
        ensures
            final(self).state() == (ViewerState { brush, ..old(self).state() }),
    {
        self.brush = brush;
    }

    pub fn catalog(&self) -> (catalog: Option<&CatalogSnapshot>)
        ensures
            match catalog {
                Some(c) => self.state().catalog == Some(*c),
                None => self.state().catalog is None,
            },
    {
        self.catalog.as_ref()
    }

    pub fn overview(&self) -> (overview: Option<&C>)
        ensures
            match overview {
                Some(c) => self.state().overview == Some(*c),
                None => self.state().overview is None,
            },
    {
        self.overview.as_ref()
    }

    pub fn detail(&self) -> (detail: Option<&C>)
        ensures
            match detail {
                Some(c) => self.state().detail == Some(*c),
                None => self.state().detail is None,
            },
    {
        self.detail.as_ref()
    }

    pub fn last_error(&self) -> (error: Option<&str>)
        ensures
            opt_view(error) == self.state().last_error,
    {
        match &self.last_error {
            Some(message) => Some(message.as_str()),
            None => None,
        }
    }

    /// Clears all state associated with the currently open source.
    pub fn reset_source(&mut self)
        ensures
            initial_state(final(self).state()),
    {
        *self = Self::empty();
    }

    fn clear_curves(&mut self)
        ensures
            curves_cleared(old(self).state(), final(self).state()),
            final(self).state().selection == old(self).state().selection,
            final(self).state().catalog == old(self).state().catalog,
    {
        self.brush = None;
        self.overview = None;
        self.detail = None;
        self.expected[1] = None;
        self.expected[2] = None;
        self.last_error = None;
        assert(self.expected@ =~= seq![old(self).expected@[0], None, None]);
    }

    /// Selects a project; a different project drops the run and metric
    /// selection and every curve-dependent value.
    pub fn select_project(&mut self, project_id: Option<ProjectId>)
        ensures
            opt_view(project_id) == old(self).state().selection.0 ==> final(self).state() == old(
                self,
            ).state(),
            opt_view(project_id) != old(self).state().selection.0 ==> {
                &&& final(self).state().selection == (opt_view(project_id), Seq::<Seq<char>>::empty(), None::<Seq<char>>)
                &&& curves_cleared(old(self).state(), final(self).state())
                &&& match old(self).state().catalog {
                    Some(c) => final(self).state().catalog matches Some(n) && n.projects
                        == c.projects && n.runs@.len() == 0 && n.metric_keys@.len() == 0,
                    None => final(self).state().catalog is None,
                }
            },
    {
        if same_project(&self.selection.project_id, &project_id) {
            return;
        }
        let mut selection = ViewerSelection::empty();
        selection.project_id = project_id;
        self.selection = selection;
        assert(self.selection@ =~= (opt_view(project_id), Seq::<Seq<char>>::empty(), None::<Seq<char>>));
        match self.catalog.as_mut() {
            Some(catalog) => {
                catalog.runs.clear();
                catalog.metric_keys.clear();
            },
            None => {},
        }
        self.clear_curves();
    }

    /// Selects a metric; a different metric clears every curve-dependent value.
    pub fn select_metric(&mut self, metric_key: Option<MetricKey>)
        ensures
            opt_view(metric_key) == old(self).state().selection.2 ==> final(self).state() == old(
                self,
            ).state(),
            opt_view(metric_key) != old(self).state().selection.2 ==> {
                &&& final(self).state().selection == (
                    old(self).state().selection.0,
                    old(self).state().selection.1,
                    opt_view(metric_key),
                )
                &&& curves_cleared(old(self).state(), final(self).state())
                &&& final(self).state().catalog == old(self).state().catalog
            },
    {
        if !same_metric(&self.selection.metric_key, &metric_key) {
            self.selection.metric_key = metric_key;
            self.clear_curves();
        }
    }

    /// Selects an alignment axis; a different axis clears every curve-dependent value.
    pub fn select_axis(&mut self, axis: AlignmentAxis)
        ensures
            axis == old(self).state().axis ==> final(self).state() == old(self).state(),
            axis != old(self).state().axis ==> {
                &&& final(self).state().selection == old(self).state().selection
                &&& curves_cleared(
                    ViewerState { axis, ..old(self).state() },
                    final(self).state(),
                )
                &&& final(self).state().catalog == old(self).state().catalog
            },
    {
        if self.axis != axis {
            self.axis = axis;
            self.clear_curves();
        }
    }
}

/// The effect of toggling `run_id`: a selected run leaves the selection (its
/// first occurrence is removed); an unselected one is appended unless exactly
/// the limit is already selected, in which case nothing changes.
pub open spec fn toggled(
    before: Seq<Seq<char>>,
    after: Seq<Seq<char>>,
    run_id: Seq<char>,
    result: Result<bool, SelectionError>,
) -> bool {
    match result {
        Ok(false) => exists|i: int|
            #![trigger before[i]]
            0 <= i < before.len() && before[i] == run_id && (forall|j: int|
                0 <= j < i ==> before[j] != run_id) && after == before.remove(i),
        Ok(true) => !before.contains(run_id) && before.len() != MAX_SELECTED_RUNS && after
            == before.push(run_id),
        Err(_) => !before.contains(run_id) && before.len() == MAX_SELECTED_RUNS && after == before,
    }
}

impl<C, B> ViewerCore<C, B> {
    /// Toggles one run while enforcing the comparison limit of ten runs.
    pub fn toggle_run(&mut self, run_id: RunId) -> (result: Result<bool, SelectionError>)
        ensures
            toggled(old(self).state().selection.1, final(self).state().selection.1, run_id@, result),
            final(self).state().selection.0 == old(self).state().selection.0,
            final(self).state().selection.2 == old(self).state().selection.2,
            final(self).state().catalog == old(self).state().catalog,
            result is Err ==> final(self).state() == old(self).state(),
            result is Ok ==> curves_cleared(old(self).state(), final(self).state()),
    {
        let ghost before = ids_view(self.selection.run_ids@);
        match position_of(&self.selection.run_ids, &run_id) {
            Some(index) => {
                self.selection.run_ids.remove(index);
                assert(ids_view(self.selection.run_ids@) =~= before.remove(index as int));
                assert(before[index as int] == run_id@);
                self.clear_curves();
                Ok(false)
            },
            None => {
                if self.selection.run_ids.len() == MAX_SELECTED_RUNS {
                    return Err(SelectionError::RunLimit);
                }
                self.selection.run_ids.push(run_id);
                assert(ids_view(self.selection.run_ids@) =~= before.push(run_id@));
                self.clear_curves();
                Ok(true)
            },
        }
    }

    /// Marks one result stream pending without clearing its current snapshot.
    pub fn begin(&mut self, generation: Generation, request: &ReadRequest)
        ensures
            final(self).state() == (ViewerState {
                expected: old(self).state().expected.update(
                    kind_slot(request_kind(*request)),
                    Some(generation),
                ),
                last_error: None,
                ..old(self).state()
            }),
    {
        let index = kind_index(request.kind());
        self.expected[index] = Some(generation);
        self.last_error = None;
    }

    /// Whether a result of this stream is awaited.
    pub fn is_pending(&self, kind: ReadKind) -> (pending: bool)
        ensures
            pending == self.state().expected[kind_slot(kind)] is Some,
            self.state().expected.len() == 3,
    {
        self.expected[kind_index(kind)].is_some()
    }

    /// A core keeps one awaited generation for each of its three streams.
    pub proof fn lemma_one_slot_per_stream(&self)
        ensures
            self.state().expected.len() == 3,
    {
    }

    fn apply_catalog(&mut self, snapshot: CatalogSnapshot)
        requires
            old(self).expected@[0] is None,
        ensures
            catalog_applied(
                ViewerState { expected: old(self).state().expected.update(0, None), ..old(self).state() },
                final(self).state(),
                snapshot,
            ),
    {
        let ghost before = self.state();
        assert(before.expected.update(0, None) =~= before.expected);
        let project_exists = match &self.selection.project_id {
            Some(project_id) => project_listed(&snapshot, project_id),
            None => false,
        };
        let previous = ViewerSelection {
            project_id: self.selection.project_id.clone(),
            run_ids: clone_ids(&self.selection.run_ids),
            metric_key: self.selection.metric_key.clone(),
        };
        if !project_exists {
            self.selection = ViewerSelection::empty();
        } else {
            self.selection.run_ids = surviving_run_ids(&snapshot, &previous.run_ids);
            let drop_metric = match &self.selection.metric_key {
                Some(metric_key) => !metric_listed(&snapshot, metric_key),
                None => false,
            };
            if drop_metric {
                self.selection.metric_key = None;
            }
        }
        assert(self.selection@ == refreshed_selection(snapshot, before.selection));
        if !self.selection.same_as(&previous) {
            self.overview = None;
            self.detail = None;
            self.expected[1] = None;
            self.expected[2] = None;
            assert(self.expected@ =~= seq![None::<Generation>, None, None]);
        }
        self.catalog = Some(snapshot);
    }

    /// Applies a result only when it is the one awaited on its stream: a
    /// result of an older request is ignored, as is one whose payload belongs
    /// to another stream; both leave the state unchanged. The brush is left as
    /// it is: re-homing it on a new overview's range is floating-point work of
    /// the renderer, done through `brush_mut` or `set_brush`.
    pub fn apply(&mut self, event: ReadEvent<C>) -> (outcome: ApplyOutcome)
        ensures
            ({
                let before = old(self).state();
                let after = final(self).state();
                let slot = kind_slot(event.kind);
                if before.expected[slot] != Some(event.generation) {
                    outcome == ApplyOutcome::IgnoredStale && after == before
                } else if event.result matches Ok(s) && snapshot_kind(s) != event.kind {
                    outcome == ApplyOutcome::IgnoredMismatched && after == before
                } else {
                    let cleared = ViewerState { expected: before.expected.update(slot, None), ..before };
                    &&& outcome == ApplyOutcome::Applied
                    &&& match event.result {
                        Ok(ReadSnapshot::Catalog(c)) => catalog_applied(cleared, after, c),
                        Ok(ReadSnapshot::Overview(c)) => after == (ViewerState { overview: Some(c), ..cleared }),
                        Ok(ReadSnapshot::Detail(c)) => after == (ViewerState { detail: Some(c), ..cleared }),
                        Err(message) => after == (ViewerState { last_error: Some(message@), ..cleared }),
                    }
                    &&& after.expected.len() == 3
                    &&& after.expected[slot] is None
                }
            }),
    {
        let index = kind_index(event.kind);
        let awaited = match self.expected[index] {
            Some(generation) => generation.0 == event.generation.0,
            None => false,
        };
        if !awaited {
            return ApplyOutcome::IgnoredStale;
        }
        let mismatched = match &event.result {
            Ok(snapshot) => snapshot.kind() != event.kind,
            Err(_) => false,
        };
        if mismatched {
            return ApplyOutcome::IgnoredMismatched;
        }
        self.expected[index] = None;
        let ghost cleared = self.state();
        assert(cleared.expected =~= old(self).state().expected.update(index as int, None));
        match event.result {
            Ok(ReadSnapshot::Catalog(snapshot)) => {
                assert(index == 0);
                assert(cleared.expected.update(0, None) =~= cleared.expected);
                self.apply_catalog(snapshot)
            },
            Ok(ReadSnapshot::Overview(snapshot)) => self.overview = Some(snapshot),
            Ok(ReadSnapshot::Detail(snapshot)) => self.detail = Some(snapshot),
            Err(message) => self.last_error = Some(message),
        }
        ApplyOutcome::Applied
    }
}

impl<C, B> Default for ViewerCore<C, B> {
    fn default() -> (core: Self)
        ensures
            initial_state(core.state()),
    {
        Self::empty()
    }
}

fn project_listed(snapshot: &CatalogSnapshot, project_id: &ProjectId) -> (listed: bool)
    ensures
        listed == project_ids(snapshot.projects@).contains(project_id@),
{
    let mut i: usize = 0;
    while i < snapshot.projects.len()
        invariant
            i <= snapshot.projects@.len(),
            forall|j: int| 0 <= j < i ==> (#[trigger] snapshot.projects@[j]).project_id@ != project_id@,
        decreases snapshot.projects@.len() - i,
    {
        if snapshot.projects[i].project_id.same_as(project_id) {
            assert(project_ids(snapshot.projects@)[i as int] == project_id@);
            return true;
        }
        i = i + 1;
    }
    proof {
        if project_ids(snapshot.projects@).contains(project_id@) {
            let k = choose|k: int|
                0 <= k < project_ids(snapshot.projects@).len() && project_ids(snapshot.projects@)[k]
                    == project_id@;
            assert(snapshot.projects@[k].project_id@ == project_id@);
        }
    }
    false
}

fn metric_listed(snapshot: &CatalogSnapshot, metric_key: &MetricKey) -> (listed: bool)
    ensures
        listed == metric_key_names(snapshot.metric_keys@).contains(metric_key@),
{
    let mut i: usize = 0;
    while i < snapshot.metric_keys.len()
        invariant
            i <= snapshot.metric_keys@.len(),
            forall|j: int| 0 <= j < i ==> (#[trigger] snapshot.metric_keys@[j])@ != metric_key@,
        decreases snapshot.metric_keys@.len() - i,
    {
        if snapshot.metric_keys[i].same_as(metric_key) {
            assert(metric_key_names(snapshot.metric_keys@)[i as int] == metric_key@);
            return true;
        }
        i = i + 1;
    }
    proof {
        if metric_key_names(snapshot.metric_keys@).contains(metric_key@) {
            let k = choose|k: int|
                0 <= k < metric_key_names(snapshot.metric_keys@).len() && metric_key_names(
                    snapshot.metric_keys@,
                )[k] == metric_key@;
            assert(snapshot.metric_keys@[k]@ == metric_key@);
        }
    }
    false
}

fn clone_ids(ids: &Vec<RunId>) -> (copy: Vec<RunId>)
    ensures
        ids_view(copy@) == ids_view(ids@),
{
    let mut copy: Vec<RunId> = Vec::new();
    let mut i: usize = 0;
    while i < ids.len()
        invariant
            i <= ids@.len(),
            copy@.len() == i,
            forall|j: int| 0 <= j < i ==> (#[trigger] copy@[j])@ == ids@[j]@,
        decreases ids@.len() - i,
    {
        let id = ids[i].clone();
        copy.push(id);
        i = i + 1;
    }
    assert(ids_view(copy@) =~= ids_view(ids@));
    copy
}

fn surviving_run_ids(snapshot: &CatalogSnapshot, selected: &Vec<RunId>) -> (kept: Vec<RunId>)
    ensures
        ids_view(kept@) == surviving_runs(*snapshot, ids_view(selected@)),
{
    let ghost pred = |id: Seq<char>| ids_view(selected@).contains(id);
    let ghost all = run_ids_of(snapshot.runs@);
    let mut kept: Vec<RunId> = Vec::new();
    let mut i: usize = 0;
    while i < snapshot.runs.len()
        invariant
            i <= snapshot.runs@.len(),
            all == run_ids_of(snapshot.runs@),
            pred == (|id: Seq<char>| ids_view(selected@).contains(id)),
            ids_view(kept@) == all.take(i as int).filter(pred),
        decreases snapshot.runs@.len() - i,
    {
        reveal_with_fuel(Seq::<_>::filter, 1);
        assert(all.take(i + 1).drop_last() =~= all.take(i as int));
        if contains_run(selected, &snapshot.runs[i].run_id) {
            kept.push(snapshot.runs[i].run_id.clone());
        }
        assert(ids_view(kept@) =~= all.take(i + 1).filter(pred));
        i = i + 1;
    }
    assert(all.take(snapshot.runs@.len() as int) =~= all);
    kept
}


/// Selecting a run that was not selected and then toggling it again removes
/// it, and the selection is the one before.
pub proof fn law_select_then_deselect_restores(
    before: Seq<Seq<char>>,
    middle: Seq<Seq<char>>,
    after: Seq<Seq<char>>,
    run_id: Seq<char>,
    second: Result<bool, SelectionError>,
)
    requires
        toggled(before, middle, run_id, Ok(true)),
        toggled(middle, after, run_id, second),
    ensures
        second == Ok::<bool, SelectionError>(false),
        after == before,
{
    assert(middle[before.len() as int] == run_id);
    assert(middle.contains(run_id));
    let i = choose|i: int|
        #![trigger middle[i]]
        0 <= i < middle.len() && middle[i] == run_id && (forall|j: int|
            0 <= j < i ==> middle[j] != run_id) && after == middle.remove(i);
    if i < before.len() {
        assert(before[i] == middle[i]);
        assert(before.contains(run_id));
    }
    assert(i == before.len());
    assert(after =~= before);
}

/// Toggling keeps the selection within the limit of ten runs and free of
/// repeated runs.
pub proof fn law_toggle_keeps_selection_bounded_and_distinct(
    before: Seq<Seq<char>>,
    after: Seq<Seq<char>>,
    run_id: Seq<char>,
    result: Result<bool, SelectionError>,
)
    requires
        toggled(before, after, run_id, result),
        before.len() <= MAX_SELECTED_RUNS,
        before.no_duplicates(),
    ensures
        after.len() <= MAX_SELECTED_RUNS,
        after.no_duplicates(),
{
    match result {
        Ok(false) => {
            let i = choose|i: int|
                #![trigger before[i]]
                0 <= i < before.len() && before[i] == run_id && (forall|j: int|
                    0 <= j < i ==> before[j] != run_id) && after == before.remove(i);
            assert forall|a: int, b: int|
                0 <= a < after.len() && 0 <= b < after.len() && a != b implies after[a] != after[b] by {
                let a0 = if a < i { a } else { a + 1 };
                let b0 = if b < i { b } else { b + 1 };
                assert(after[a] == before[a0]);
                assert(after[b] == before[b0]);
            }
        },
        Ok(true) => {
            assert forall|a: int, b: int|
                0 <= a < after.len() && 0 <= b < after.len() && a != b implies after[a] != after[b] by {
                if a == before.len() as int {
                    assert(after[b] == before[b]);
                } else if b == before.len() as int {
                    assert(after[a] == before[a]);
                } else {
                    assert(after[a] == before[a]);
                    assert(after[b] == before[b]);
                }
            }
        },
        Err(_) => {},
    }
}

proof fn lemma_filter_agrees(
    s: Seq<Seq<char>>,
    p: spec_fn(Seq<char>) -> bool,
    q: spec_fn(Seq<char>) -> bool,
)
    requires
        forall|i: int| 0 <= i < s.len() ==> p(s[i]) == q(s[i]),
    ensures
        s.filter(p) == s.filter(q),
    decreases s.len(),
{
    reveal(Seq::filter);
    if s.len() > 0 {
        assert forall|i: int| 0 <= i < s.drop_last().len() implies p(s.drop_last()[i]) == q(
            s.drop_last()[i],
        ) by {
            assert(s.drop_last()[i] == s[i]);
        }
        lemma_filter_agrees(s.drop_last(), p, q);
        assert(p(s.last()) == q(s[s.len() - 1]));
    }
}

/// After a catalog refresh every selected run is listed in the catalog and
/// was selected before.
pub proof fn law_refreshed_runs_are_listed_and_were_selected(
    catalog: CatalogSnapshot,
    selection: (Option<Seq<char>>, Seq<Seq<char>>, Option<Seq<char>>),
    run_id: Seq<char>,
)
    requires
        refreshed_selection(catalog, selection).1.contains(run_id),
    ensures
        run_ids_of(catalog.runs@).contains(run_id),
        selection.1.contains(run_id),
{
    broadcast use vstd::seq_lib::group_filter_ensures;

    let pred = |id: Seq<char>| selection.1.contains(id);
    let kept = run_ids_of(catalog.runs@).filter(pred);
    assert(refreshed_selection(catalog, selection).1 == kept);
    let k = choose|k: int| 0 <= k < kept.len() && kept[k] == run_id;
    run_ids_of(catalog.runs@).lemma_filter_pred(pred, k);
    run_ids_of(catalog.runs@).lemma_filter_contains_rev(pred, run_id);
}

/// Applying the same catalog twice leaves the selection as the first
/// application left it.
pub proof fn law_catalog_refresh_is_idempotent(
    catalog: CatalogSnapshot,
    selection: (Option<Seq<char>>, Seq<Seq<char>>, Option<Seq<char>>),
)
    ensures
        refreshed_selection(catalog, refreshed_selection(catalog, selection)) == refreshed_selection(
            catalog,
            selection,
        ),
{
    broadcast use vstd::seq_lib::group_filter_ensures;

    let once = refreshed_selection(catalog, selection);
    match selection.0 {
        Some(p) if project_ids(catalog.projects@).contains(p) => {
            let ids = run_ids_of(catalog.runs@);
            let first = |id: Seq<char>| selection.1.contains(id);
            let kept = ids.filter(first);
            let second = |id: Seq<char>| kept.contains(id);
            assert forall|i: int| 0 <= i < ids.len() implies first(ids[i]) == second(ids[i]) by {
                if first(ids[i]) {
                    ids.lemma_filter_contains(first, i);
                }
                if second(ids[i]) {
                    let k = choose|k: int| 0 <= k < kept.len() && kept[k] == ids[i];
                    ids.lemma_filter_pred(first, k);
                }
            }
            lemma_filter_agrees(ids, first, second);
            assert(surviving_runs(catalog, once.1) == kept);
        },
        _ => {},
    }
}

proof fn lemma_filter_no_duplicates(s: Seq<Seq<char>>, p: spec_fn(Seq<char>) -> bool)
    requires
        s.no_duplicates(),
    ensures
        s.filter(p).no_duplicates(),
    decreases s.len(),
{
    reveal(Seq::filter);
    if s.len() > 0 {
        let rest = s.drop_last();
        assert forall|i: int, j: int|
            0 <= i < rest.len() && 0 <= j < rest.len() && i != j implies rest[i] != rest[j] by {
            assert(rest[i] == s[i] && rest[j] == s[j]);
        }
        lemma_filter_no_duplicates(rest, p);
        let kept = rest.filter(p);
        if p(s.last()) {
            if kept.contains(s.last()) {
                rest.lemma_filter_contains_rev(p, s.last());
                let k = choose|k: int| 0 <= k < rest.len() && rest[k] == s.last();
                assert(s[k] == s[s.len() - 1]);
            }
            let whole = kept.push(s.last());
            assert forall|i: int, j: int|
                0 <= i < whole.len() && 0 <= j < whole.len() && i != j implies whole[i] != whole[j] by {
                if i < kept.len() && j < kept.len() {
                    assert(whole[i] == kept[i] && whole[j] == kept[j]);
                } else if i < kept.len() {
                    assert(whole[i] == kept[i]);
                } else if j < kept.len() {
                    assert(whole[j] == kept[j]);
                }
            }
        }
    }
}

/// When the catalog lists each run once, a refresh keeps the selection free
/// of repeated runs and never makes it longer, so it stays within the limit.
pub proof fn law_refresh_keeps_selection_distinct_and_bounded(
    catalog: CatalogSnapshot,
    selection: (Option<Seq<char>>, Seq<Seq<char>>, Option<Seq<char>>),
)
    requires
        run_ids_of(catalog.runs@).no_duplicates(),
        selection.1.no_duplicates(),
    ensures
        refreshed_selection(catalog, selection).1.no_duplicates(),
        refreshed_selection(catalog, selection).1.len() <= selection.1.len(),
{
    broadcast use vstd::seq_lib::group_filter_ensures;
    broadcast use vstd::seq_lib::seq_to_set_is_finite;

    match selection.0 {
        Some(p) if project_ids(catalog.projects@).contains(p) => {
            let ids = run_ids_of(catalog.runs@);
            let pred = |id: Seq<char>| selection.1.contains(id);
            let kept = ids.filter(pred);
            lemma_filter_no_duplicates(ids, pred);
            assert forall|x: Seq<char>| kept.to_set().contains(x) implies selection.1.to_set().contains(
                x,
            ) by {
                let k = choose|k: int| 0 <= k < kept.len() && kept[k] == x;
                ids.lemma_filter_pred(pred, k);
            }
            kept.unique_seq_to_set();
            selection.1.unique_seq_to_set();
            vstd::set_lib::lemma_len_subset(kept.to_set(), selection.1.to_set());
        },
        _ => {},
    }
}

/// A refresh whose catalog no longer lists the selected project, or made
/// with no project selected, leaves nothing selected.
pub proof fn law_refresh_without_the_project_clears_the_selection(
    catalog: CatalogSnapshot,
    selection: (Option<Seq<char>>, Seq<Seq<char>>, Option<Seq<char>>),
)
    requires
        !(selection.0 matches Some(p) && project_ids(catalog.projects@).contains(p)),
    ensures
        refreshed_selection(catalog, selection) == empty_selection(),
{
}

/// A refresh that keeps the selected project keeps the project, keeps a
/// selected metric key that the catalog still lists, and drops one that it
/// no longer lists; a refresh never selects a metric that was not selected.
pub proof fn law_refresh_keeps_a_listed_metric(
    catalog: CatalogSnapshot,
    selection: (Option<Seq<char>>, Seq<Seq<char>>, Option<Seq<char>>),
)
    requires
        selection.0 matches Some(p) && project_ids(catalog.projects@).contains(p),
    ensures
        refreshed_selection(catalog, selection).0 == selection.0,
        selection.2 matches Some(k) && metric_key_names(catalog.metric_keys@).contains(k)
            ==> refreshed_selection(catalog, selection).2 == selection.2,
        selection.2 matches Some(k) && !metric_key_names(catalog.metric_keys@).contains(k)
            ==> refreshed_selection(catalog, selection).2 is None,
        selection.2 is None ==> refreshed_selection(catalog, selection).2 is None,
{
}

/// A catalog that lists the selected project, each selected run in the
/// selected order, and the selected metric leaves the selection as it was.
pub proof fn law_refresh_of_a_listed_selection_changes_nothing(
    catalog: CatalogSnapshot,
    selection: (Option<Seq<char>>, Seq<Seq<char>>, Option<Seq<char>>),
)
    requires
        selection.0 matches Some(p) && project_ids(catalog.projects@).contains(p),
        run_ids_of(catalog.runs@) == selection.1,
        selection.2 matches Some(k) ==> metric_key_names(catalog.metric_keys@).contains(k),
    ensures
        refreshed_selection(catalog, selection) == selection,
{
    broadcast use vstd::seq_lib::group_filter_ensures;

    let ids = run_ids_of(catalog.runs@);
    let pred = |id: Seq<char>| selection.1.contains(id);
    let all = |id: Seq<char>| true;
    assert forall|i: int| 0 <= i < ids.len() implies pred(ids[i]) == all(ids[i]) by {
        assert(selection.1[i] == ids[i]);
    }
    lemma_filter_agrees(ids, pred, all);
    lemma_filter_all(ids, all);
}

proof fn lemma_filter_all(s: Seq<Seq<char>>, p: spec_fn(Seq<char>) -> bool)
    requires
        forall|i: int| 0 <= i < s.len() ==> p(s[i]),
    ensures
        s.filter(p) == s,
    decreases s.len(),
{
    reveal(Seq::filter);
    if s.len() > 0 {
        assert forall|i: int| 0 <= i < s.drop_last().len() implies p(s.drop_last()[i]) by {
            assert(s.drop_last()[i] == s[i]);
        }
        lemma_filter_all(s.drop_last(), p);
        assert(p(s[s.len() - 1]));
        assert(s.drop_last().push(s.last()) =~= s);
    }
}

/// A non-blank filter query matches a run whose lower-cased name, lower-cased
/// id, or status contains the trimmed, lower-cased query anywhere, not only
/// at the start; an empty query matches every run.
pub proof fn law_filter_matches_any_part_of_a_field(
    name: Seq<char>,
    run_id: Seq<char>,
    status: Seq<char>,
    query: Seq<char>,
    at: int,
)
    ensures
        unicode_lowercase(trimmed(query)).len() == 0 ==> filter_matches(name, run_id, status, query),
        ({
            let q = unicode_lowercase(trimmed(query));
            let field = unicode_lowercase(name);
            0 <= at && at + q.len() <= field.len() && field.subrange(at, at + q.len()) == q
        }) ==> filter_matches(name, run_id, status, query),
        ({
            let q = unicode_lowercase(trimmed(query));
            let field = unicode_lowercase(run_id);
            0 <= at && at + q.len() <= field.len() && field.subrange(at, at + q.len()) == q
        }) ==> filter_matches(name, run_id, status, query),
        ({
            let q = unicode_lowercase(trimmed(query));
            0 <= at && at + q.len() <= status.len() && status.subrange(at, at + q.len()) == q
        }) ==> filter_matches(name, run_id, status, query),
{
    let q = unicode_lowercase(trimmed(query));
    if 0 <= at && at + q.len() <= unicode_lowercase(name).len() && unicode_lowercase(name).subrange(at, at + q.len()) == q {
        assert(has_infix(unicode_lowercase(name), q));
    }
    if 0 <= at && at + q.len() <= unicode_lowercase(run_id).len() && unicode_lowercase(run_id).subrange(at, at + q.len()) == q {
        assert(has_infix(unicode_lowercase(run_id), q));
    }
    if 0 <= at && at + q.len() <= status.len() && status.subrange(at, at + q.len()) == q {
        assert(has_infix(status, q));
    }
}

} // verus!
