use vstd::prelude::*;

use crate::model::run::RunId;

verus! {

/// The user-facing name of a metric series.
#[derive(Debug, PartialEq, Eq, Hash)]
pub struct MetricKey {
    value: String,
}

impl View for MetricKey {
    type V = Seq<char>;

    closed spec fn view(&self) -> Seq<char> {
        self.value@
    }
}

impl Clone for MetricKey {
    fn clone(&self) -> (copy: Self)
        ensures
            copy@ == self@,
    {
        MetricKey { value: self.value.clone() }
    }
}

impl MetricKey {
    pub fn from_string(value: &str) -> (key: MetricKey)
        ensures
            key@ == value@,
    {
        MetricKey { value: value.to_owned() }
    }

    pub fn as_str(&self) -> (text: &str)
        ensures
            text@ == self@,
    {
        self.value.as_str()
    }

    /// Whether both keys name the same metric series.
    pub fn same_as(&self, other: &MetricKey) -> (same: bool)
        ensures
            same == (self@ == other@),
    {
        self.value == other.value
    }
}

/// A metric step: the position of one observation inside its series.
#[derive(Clone, Copy, Debug, PartialEq, Eq, Structural, PartialOrd, Ord, Hash)]
pub struct Step {
    value: i64,
}

impl View for Step {
    type V = i64;

    closed spec fn view(&self) -> i64 {
        self.value
    }
}

impl Step {
    pub fn new(value: i64) -> (step: Step)
        ensures
            step@ == value,
    {
        Step { value }
    }

    pub fn value(self) -> (value: i64)
        ensures
            value == self@,
    {
        self.value
    }
}

/// A request for one metric series, optionally bounded by steps and a point budget.
#[derive(Debug, PartialEq)]
pub struct MetricQuery {
    pub run_id: RunId,
    pub metric_key: MetricKey,
    pub start_step: Option<Step>,
    pub end_step: Option<Step>,
    pub max_points: Option<usize>,
}

} // verus!
