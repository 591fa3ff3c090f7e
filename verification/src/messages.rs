use crate::aggregator::ResponseTimeStatistics;
use crate::observation::ResponseTimeObservation;
use vstd::prelude::*;

verus! {

/// A request for the response-time statistics of the current window
/// contents (e.g. the 95th-percentile level).
pub struct CalculateResponseTimeStatistics {}

impl CalculateResponseTimeStatistics {
    pub fn new() -> (r: Self)
        ensures
            r == (CalculateResponseTimeStatistics {}),
    {
        CalculateResponseTimeStatistics {}
    }
}

impl Default for CalculateResponseTimeStatistics {
    fn default() -> (r: Self)
        ensures
            r == (CalculateResponseTimeStatistics {}),
    {
        Self::new()
    }
}

/// The reply to a [`CalculateResponseTimeStatistics`] request.
#[derive(Debug, Clone, Copy, PartialEq, Eq)]
pub struct ResponseTimeStatisticsCalculated {
    pub value: ResponseTimeStatistics,
}

/// A request to record one response-time observation. Fire-and-forget: it
/// carries no reply.
pub struct ObserveResponseTime {
    pub datum: ResponseTimeObservation,
}

impl ObserveResponseTime {
    pub fn new(rt: ResponseTimeObservation) -> (r: ObserveResponseTime)
        ensures
            r == (ObserveResponseTime { datum: rt }),
    {
        ObserveResponseTime { datum: rt }
    }
}

} // verus!
