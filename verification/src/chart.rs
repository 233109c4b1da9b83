//! Renderer-agnostic chart identities and errors.

use vstd::prelude::*;

use crate::text::{is_blank, text_is_blank};

verus! {

/// Errors produced while constructing or transforming chart data.
#[derive(Clone, Copy, Debug, PartialEq, Eq, Structural)]
pub enum ChartError {
    EmptySeriesId,
    InvalidPoint { index: usize },
    UnsortedSeries { index: usize },
    InvalidRange,
    InvalidOutputRange,
    InvalidCanvasSize,
    InvalidDownsampleThreshold,
    InvalidTransform,
}

/// Stable identity of one chart series.
#[derive(Debug, PartialEq, Eq, Hash, PartialOrd, Ord)]
pub struct SeriesId {
    value: String,
}

impl View for SeriesId {
    type V = Seq<char>;

    closed spec fn view(&self) -> Seq<char> {
        self.value@
    }
}

impl Clone for SeriesId {
    fn clone(&self) -> (copy: Self)
        ensures
            copy@ == self@,
    {
        SeriesId { value: self.value.clone() }
    }
}

impl SeriesId {
    /// Creates a series identifier; a blank value is refused.
    pub fn new(value: &str) -> (result: Result<SeriesId, ChartError>)
        ensures
            match result {
                Ok(id) => !is_blank(value@) && id@ == value@,
                Err(error) => is_blank(value@) && error == ChartError::EmptySeriesId,
            },
    {
        if text_is_blank(value) {
            return Err(ChartError::EmptySeriesId);
        }
        Ok(SeriesId { value: value.to_owned() })
    }

    pub fn as_str(&self) -> (text: &str)
        ensures
            text@ == self@,
    {
        self.value.as_str()
    }
}

/// The part of the overview brush a pointer grabs.
#[derive(Clone, Copy, Debug, PartialEq, Eq, Structural)]
pub enum BrushDragTarget {
    Start,
    End,
    Window,
}

} // verus!
