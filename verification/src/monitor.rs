use crate::aggregator::ResponseTimeStatistics;
use crate::interval::Interval;
use crate::observation::DurationSecs;
use vstd::prelude::*;

verus! {

/// The observable signal raised when the measured 95th percentile meets or
/// exceeds the configured maximum. It carries the measured value, the
/// configured maximum, and the interval the value was measured over; how it
/// is emitted (log line, alert dispatch) is the caller's business.
#[derive(Debug, Clone, Copy, PartialEq, Eq)]
pub struct BreachNotification {
    pub actual: DurationSecs,
    pub maximum: DurationSecs,
    pub interval: Interval,
}

/// The monitor's decision on one statistics result: a breach notification
/// exactly when at least one observation qualified, a percentile is present,
/// and it is at or above the maximum; no signal otherwise.
pub open spec fn breach_of(maximum: DurationSecs, stats: ResponseTimeStatistics) -> Option<
    BreachNotification,
> {
    match stats.p95 {
        Some(actual) => {
            if stats.n > 0 && actual >= maximum {
                Some(BreachNotification { actual, maximum, interval: stats.interval })
            } else {
                None
            }
        },
        None => None,
    }
}

/// A stateless evaluator that raises a breach notification whenever a
/// computed 95th-percentile level fails the configured performance target.
/// Its only state is the configured maximum, immutable after construction.
pub struct ResponseTimePerformanceMonitorService {
    pub maximum: DurationSecs,
}

impl ResponseTimePerformanceMonitorService {
    pub fn new(maximum: DurationSecs) -> (r: Self)
        ensures
            r == (ResponseTimePerformanceMonitorService { maximum }),
    {
        ResponseTimePerformanceMonitorService { maximum }
    }

    /// React to one computed statistics result, independently of any earlier
    /// one. Returns the notification to emit, if any.
    pub fn on_statistics(&self, stats: &ResponseTimeStatistics) -> (r: Option<BreachNotification>)
        ensures
            r == breach_of(self.maximum, *stats),
    {
        if stats.n > 0 {
            match stats.p95 {
                Some(actual) => {
                    if actual >= self.maximum {
                        Some(
                            BreachNotification {
                                actual,
                                maximum: self.maximum,
                                interval: stats.interval,
                            },
                        )
                    } else {
                        None
                    }
                },
                None => None,
            }
        } else {
            None
        }
    }
}

} // verus!
