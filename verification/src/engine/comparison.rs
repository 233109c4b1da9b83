use vstd::prelude::*;

use crate::engine::error::EngineError;
use crate::model::run::{RunId, RunStatus};

verus! {

/// How complete the evidence of one run is, from best to worst.
#[derive(Clone, Copy, Debug, PartialEq, Eq, Structural, PartialOrd, Ord, Hash)]
pub enum EvidenceCompleteness {
    Complete,
    Partial,
    Unavailable,
}

/// The rank of a completeness level; a higher rank is less complete.
pub open spec fn completeness_rank(c: EvidenceCompleteness) -> int {
    match c {
        EvidenceCompleteness::Complete => 0,
        EvidenceCompleteness::Partial => 1,
        EvidenceCompleteness::Unavailable => 2,
    }
}

/// The completeness of a comparison: that of its less complete side.
pub fn combined_completeness(candidate: EvidenceCompleteness, reference: EvidenceCompleteness) -> (combined: EvidenceCompleteness)
    ensures
        combined == candidate || combined == reference,
        completeness_rank(combined) >= completeness_rank(candidate),
        completeness_rank(combined) >= completeness_rank(reference),
{
    match (candidate, reference) {
        (EvidenceCompleteness::Unavailable, _) | (_, EvidenceCompleteness::Unavailable) => EvidenceCompleteness::Unavailable,
        (EvidenceCompleteness::Partial, _) | (_, EvidenceCompleteness::Partial) => EvidenceCompleteness::Partial,
        _ => EvidenceCompleteness::Complete,
    }
}

/// How complete one run's aligned curve is as evidence: without points it is
/// unavailable; a run that still runs, or an axis flagged as negative or
/// decreasing, makes it partial; otherwise it is complete.
pub open spec fn curve_completeness_of(has_points: bool, status: RunStatus, axis_flagged: bool) -> EvidenceCompleteness {
    if !has_points {
        EvidenceCompleteness::Unavailable
    } else if status == RunStatus::Running || axis_flagged {
        EvidenceCompleteness::Partial
    } else {
        EvidenceCompleteness::Complete
    }
}

/// Grades one run's aligned curve as evidence.
pub fn curve_completeness(has_points: bool, status: RunStatus, axis_flagged: bool) -> (completeness: EvidenceCompleteness)
    ensures
        completeness == curve_completeness_of(has_points, status, axis_flagged),
{
    if !has_points {
        EvidenceCompleteness::Unavailable
    } else if status == RunStatus::Running || axis_flagged {
        EvidenceCompleteness::Partial
    } else {
        EvidenceCompleteness::Complete
    }
}

/// Whether evidence of this completeness is drawn as a curve.
pub fn is_drawable(completeness: EvidenceCompleteness) -> (drawable: bool)
    ensures
        drawable == (completeness == EvidenceCompleteness::Complete || completeness == EvidenceCompleteness::Partial),
{
    match completeness {
        EvidenceCompleteness::Complete | EvidenceCompleteness::Partial => true,
        EvidenceCompleteness::Unavailable => false,
    }
}

/// Whether smaller or larger objective values are better.
#[derive(Clone, Copy, Debug, PartialEq, Eq, Structural, Hash)]
pub enum ObjectiveDirection {
    Minimize,
    Maximize,
}

/// How the candidate's value compares with the reference's.
#[derive(Clone, Copy, Debug, PartialEq, Eq, Structural)]
pub enum ValueOrder {
    Less,
    Equal,
    Greater,
}

/// The numeric outcome for the candidate.
#[derive(Clone, Copy, Debug, PartialEq, Eq, Structural, Hash)]
pub enum ComparisonOutcome {
    Improved,
    Regressed,
    Equal,
}

/// Which run a comparison prefers.
#[derive(Clone, Copy, Debug, PartialEq, Eq, Structural, Hash)]
pub enum ComparisonPreference {
    Candidate,
    Reference,
    NoPreference,
    Inconclusive,
}

/// The outcome of a direction-normalized improvement: positive when the
/// candidate is better (smaller when minimizing, larger when maximizing).
pub open spec fn outcome_of(direction: ObjectiveDirection, order: ValueOrder) -> ComparisonOutcome {
    match (direction, order) {
        (_, ValueOrder::Equal) => ComparisonOutcome::Equal,
        (ObjectiveDirection::Minimize, ValueOrder::Less) => ComparisonOutcome::Improved,
        (ObjectiveDirection::Minimize, ValueOrder::Greater) => ComparisonOutcome::Regressed,
        (ObjectiveDirection::Maximize, ValueOrder::Greater) => ComparisonOutcome::Improved,
        (ObjectiveDirection::Maximize, ValueOrder::Less) => ComparisonOutcome::Regressed,
    }
}

/// The outcome of comparing the candidate's last value with the reference's.
pub fn comparison_outcome(direction: ObjectiveDirection, order: ValueOrder) -> (outcome: ComparisonOutcome)
    ensures
        outcome == outcome_of(direction, order),
{
    match order {
        ValueOrder::Equal => ComparisonOutcome::Equal,
        ValueOrder::Less => match direction {
            ObjectiveDirection::Minimize => ComparisonOutcome::Improved,
            ObjectiveDirection::Maximize => ComparisonOutcome::Regressed,
        },
        ValueOrder::Greater => match direction {
            ObjectiveDirection::Minimize => ComparisonOutcome::Regressed,
            ObjectiveDirection::Maximize => ComparisonOutcome::Improved,
        },
    }
}

/// The preference of a comparison: only complete evidence with a numeric
/// outcome prefers a side; everything else is inconclusive.
pub open spec fn preference_of(completeness: EvidenceCompleteness, outcome: Option<ComparisonOutcome>) -> ComparisonPreference {
    match (completeness, outcome) {
        (EvidenceCompleteness::Complete, Some(ComparisonOutcome::Improved)) => ComparisonPreference::Candidate,
        (EvidenceCompleteness::Complete, Some(ComparisonOutcome::Regressed)) => ComparisonPreference::Reference,
        (EvidenceCompleteness::Complete, Some(ComparisonOutcome::Equal)) => ComparisonPreference::NoPreference,
        _ => ComparisonPreference::Inconclusive,
    }
}

/// Decides the preference of a comparison.
pub fn comparison_preference(completeness: EvidenceCompleteness, outcome: Option<ComparisonOutcome>) -> (preference: ComparisonPreference)
    ensures
        preference == preference_of(completeness, outcome),
{
    match (completeness, outcome) {
        (EvidenceCompleteness::Complete, Some(ComparisonOutcome::Improved)) => ComparisonPreference::Candidate,
        (EvidenceCompleteness::Complete, Some(ComparisonOutcome::Regressed)) => ComparisonPreference::Reference,
        (EvidenceCompleteness::Complete, Some(ComparisonOutcome::Equal)) => ComparisonPreference::NoPreference,
        _ => ComparisonPreference::Inconclusive,
    }
}

/// Refuses a comparison of a run with itself.
pub fn check_distinct_runs(candidate: &RunId, reference: &RunId) -> (result: Result<(), EngineError>)
    ensures
        match result {
            Ok(()) => candidate@ != reference@,
            Err(error) => {
                &&& candidate@ == reference@
                &&& error matches EngineError::DuplicateRunIdentity { run_id }
                &&& run_id@ == candidate@
            },
        },
{
    if candidate.same_as(reference) {
        return Err(EngineError::DuplicateRunIdentity { run_id: candidate.as_str().to_owned() });
    }
    Ok(())
}

/// The order seen from the other side of a comparison.
pub open spec fn reversed_order(order: ValueOrder) -> ValueOrder {
    match order {
        ValueOrder::Less => ValueOrder::Greater,
        ValueOrder::Equal => ValueOrder::Equal,
        ValueOrder::Greater => ValueOrder::Less,
    }
}

/// The outcome for the other run.
pub open spec fn opposite_outcome(outcome: ComparisonOutcome) -> ComparisonOutcome {
    match outcome {
        ComparisonOutcome::Improved => ComparisonOutcome::Regressed,
        ComparisonOutcome::Equal => ComparisonOutcome::Equal,
        ComparisonOutcome::Regressed => ComparisonOutcome::Improved,
    }
}

/// The preference seen from the other side of a comparison.
pub open spec fn opposite_preference(preference: ComparisonPreference) -> ComparisonPreference {
    match preference {
        ComparisonPreference::Candidate => ComparisonPreference::Reference,
        ComparisonPreference::Reference => ComparisonPreference::Candidate,
        other => other,
    }
}

/// Swapping candidate and reference turns an improvement into a regression
/// and back, leaves a tie a tie, and so swaps the preferred run.
pub proof fn law_swapping_runs_flips_the_outcome(
    direction: ObjectiveDirection,
    order: ValueOrder,
    completeness: EvidenceCompleteness,
)
    ensures
        outcome_of(direction, reversed_order(order)) == opposite_outcome(outcome_of(direction, order)),
        preference_of(completeness, Some(outcome_of(direction, reversed_order(order))))
            == opposite_preference(preference_of(completeness, Some(outcome_of(direction, order)))),
{
}

/// The same values compare the other way under the opposite objective.
pub proof fn law_direction_decides_which_side_improves(order: ValueOrder)
    ensures
        outcome_of(ObjectiveDirection::Maximize, order) == opposite_outcome(
            outcome_of(ObjectiveDirection::Minimize, order),
        ),
{
}

/// Only complete evidence prefers a run.
pub proof fn law_incomplete_evidence_is_inconclusive(
    completeness: EvidenceCompleteness,
    outcome: Option<ComparisonOutcome>,
)
    requires
        completeness != EvidenceCompleteness::Complete || outcome is None,
    ensures
        preference_of(completeness, outcome) == ComparisonPreference::Inconclusive,
{
}

} // verus!
