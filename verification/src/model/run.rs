use vstd::prelude::*;

use crate::engine::time::Timestamp;

verus! {

/// Stable identity of one training run.
#[derive(Debug, PartialEq, Eq, Hash)]
pub struct RunId {
    value: String,
}

impl View for RunId {
    type V = Seq<char>;

    closed spec fn view(&self) -> Seq<char> {
        self.value@
    }
}

impl Clone for RunId {
    fn clone(&self) -> (copy: Self)
        ensures
            copy@ == self@,
    {
        RunId { value: self.value.clone() }
    }
}

impl RunId {
    pub fn from_string(value: &str) -> (id: RunId)
        ensures
            id@ == value@,
    {
        RunId { value: value.to_owned() }
    }

    pub fn from_owned(value: String) -> (id: RunId)
        ensures
            id@ == value@,
    {
        RunId { value }
    }

    pub fn as_str(&self) -> (text: &str)
        ensures
            text@ == self@,
    {
        self.value.as_str()
    }

    /// Whether both identities name the same run.
    pub fn same_as(&self, other: &RunId) -> (same: bool)
        ensures
            same == (self@ == other@),
    {
        self.value == other.value
    }
}

/// Stable identity of one project.
#[derive(Debug, PartialEq, Eq, Hash)]
pub struct ProjectId {
    value: String,
}

impl View for ProjectId {
    type V = Seq<char>;

    closed spec fn view(&self) -> Seq<char> {
        self.value@
    }
}

impl Clone for ProjectId {
    fn clone(&self) -> (copy: Self)
        ensures
            copy@ == self@,
    {
        ProjectId { value: self.value.clone() }
    }
}

impl ProjectId {
    pub fn from_string(value: &str) -> (id: ProjectId)
        ensures
            id@ == value@,
    {
        ProjectId { value: value.to_owned() }
    }

    pub fn from_owned(value: String) -> (id: ProjectId)
        ensures
            id@ == value@,
    {
        ProjectId { value }
    }

    pub fn as_str(&self) -> (text: &str)
        ensures
            text@ == self@,
    {
        self.value.as_str()
    }

    /// Whether both identities name the same project.
    pub fn same_as(&self, other: &ProjectId) -> (same: bool)
        ensures
            same == (self@ == other@),
    {
        self.value == other.value
    }
}

/// Lifecycle state of a run: running, or one of the two terminal states.
#[derive(Clone, Copy, Debug, PartialEq, Eq, Structural, Hash)]
pub enum RunStatus {
    Running,
    Finished,
    Failed,
}

/// One training execution.
#[derive(Debug, PartialEq)]
pub struct Run {
    pub run_id: RunId,
    pub project_id: ProjectId,
    pub name: String,
    pub status: RunStatus,
    pub created_at: Timestamp,
    pub started_at: Timestamp,
    pub finished_at: Option<Timestamp>,
}

/// A lightweight namespace for related runs.
#[derive(Debug, PartialEq)]
pub struct Project {
    pub project_id: ProjectId,
    pub name: String,
    pub created_at: Timestamp,
}

} // verus!
