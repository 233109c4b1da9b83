use vstd::prelude::*;

use crate::engine::error::EngineError;

verus! {

/// Whether chrono can represent the instant `millis` milliseconds after the
/// UNIX epoch as a `DateTime<Utc>`.
pub uninterp spec fn chrono_millis_in_range(millis: i64) -> bool;

/// The text that chrono's `DateTime::<Utc>::to_rfc3339` renders for the
/// instant `millis` milliseconds after the UNIX epoch.
pub uninterp spec fn rfc3339_text(millis: i64) -> Seq<char>;

/// Calls `chrono::DateTime::from_timestamp_millis` and reports whether it
/// produced a value. The claim: the answer is `chrono_millis_in_range(millis)`,
/// and chrono's documented range (about 262,000 years around the common era)
/// covers every instant within 10^15 milliseconds of the epoch.
#[verifier::external_body]
fn chrono_accepts_millis(millis: i64) -> (accepted: bool)
    ensures
        accepted == chrono_millis_in_range(millis),
        -1_000_000_000_000_000 <= millis <= 1_000_000_000_000_000 ==> accepted,
{
    chrono::DateTime::from_timestamp_millis(millis).is_some()
}

/// Reads the wall clock through `chrono::Utc::now().timestamp_millis()`.
/// Nothing is claimed of the value.
#[verifier::external_body]
fn wall_clock_millis() -> (millis: i64) {
    chrono::Utc::now().timestamp_millis()
}

/// An instant, in milliseconds since the UNIX epoch, that chrono can represent.
#[derive(Clone, Copy, Debug, PartialEq, Eq, Structural)]
pub struct Timestamp {
    millis: i64,
}

impl View for Timestamp {
    type V = i64;

    closed spec fn view(&self) -> i64 {
        self.millis
    }
}

impl Timestamp {
    #[verifier::type_invariant]
    spec fn representable(self) -> bool {
        chrono_millis_in_range(self.millis)
    }

    /// Milliseconds since the UNIX epoch.
    pub fn millis(&self) -> (millis: i64)
        ensures
            millis == self@,
            chrono_millis_in_range(millis),
    {
        proof {
            use_type_invariant(self);
        }
        self.millis
    }
}

/// Interprets `millis` as an instant, failing when chrono cannot represent it.
pub fn timestamp_from_millis(field: &'static str, millis: i64) -> (result: Result<
    Timestamp,
    EngineError,
>)
    ensures
        match result {
            Ok(timestamp) => chrono_millis_in_range(millis) && timestamp@ == millis,
            Err(error) => !chrono_millis_in_range(millis) && error == (EngineError::InvalidTimestamp {
                field,
                millis,
            }),
        },
{
    if chrono_accepts_millis(millis) {
        Ok(Timestamp { millis })
    } else {
        Err(EngineError::InvalidTimestamp { field, millis })
    }
}

/// The current wall-clock instant.
pub fn current_timestamp(field: &'static str) -> (result: Result<Timestamp, EngineError>)
    ensures
        match result {
            Ok(timestamp) => chrono_millis_in_range(timestamp@),
            Err(error) => error matches EngineError::InvalidTimestamp { field: f, millis }
                && f == field && !chrono_millis_in_range(millis),
        },
{
    timestamp_from_millis(field, wall_clock_millis())
}

/// Renders an instant with chrono's `DateTime::<Utc>::to_rfc3339`. The claim:
/// the text is `rfc3339_text` of the instant's milliseconds.
#[verifier::external_body]
pub fn timestamp_as_rfc3339(timestamp: &Timestamp) -> (text: String)
    ensures
        text@ == rfc3339_text(timestamp@),
{
    chrono::DateTime::from_timestamp_millis(timestamp.millis).unwrap_or_default().to_rfc3339()
}

} // verus!
