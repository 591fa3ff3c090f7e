use crate::interval::Timestamp;
use vstd::prelude::*;

verus! {

/// A length of time, as a signed count of whole seconds.
pub type DurationSecs = i64;

/// One response-time measurement: a duration observed at a point in time.
/// Immutable once constructed.
#[derive(Debug, Clone, Copy, PartialEq, Eq)]
pub struct ResponseTimeObservation {
    pub value: DurationSecs,
    pub time: Timestamp,
}

impl ResponseTimeObservation {
    /// Construct a response-time measurement with the given response-time
    /// value observed at the given time.
    pub fn new(value: DurationSecs, time: Timestamp) -> (r: ResponseTimeObservation)
        ensures
            r == (ResponseTimeObservation { value, time }),
    {
        ResponseTimeObservation { value, time }
    }
}

} // verus!
