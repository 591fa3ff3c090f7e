use crate::interval::Interval;
use crate::observation::DurationSecs;
use crate::observation::ResponseTimeObservation;
use crate::percentile::p95;
use crate::percentile::p95_spec;
use vstd::prelude::*;

verus! {

/// The mathematical content of a [`WindowedPercentileService`]: its window
/// and the qualifying durations it has accepted, in arrival order.
pub struct AggregatorModel {
    pub window: Interval,
    pub observations: Seq<DurationSecs>,
}

/// Response-time statistics for an interval: the 95th-percentile level, the
/// number of qualifying observations it was computed over, and the window
/// they were drawn from. `p95` is `None` exactly when `n` is zero.
#[derive(Debug, Clone, Copy, PartialEq, Eq)]
pub struct ResponseTimeStatistics {
    /// The value of the 95th percentile.
    pub p95: Option<DurationSecs>,
    /// The number of observations.
    pub n: usize,
    /// The interval for which it was observed.
    pub interval: Interval,
}

impl ResponseTimeStatistics {
    pub fn new(n: usize, p95: Option<DurationSecs>, interval: Interval) -> (r:
        ResponseTimeStatistics)
        ensures
            r == (ResponseTimeStatistics { p95, n, interval }),
    {
        ResponseTimeStatistics { p95, n, interval }
    }
}

/// How one observation changes an aggregator: a value whose time falls
/// inside the window is appended, anything else is silently dropped.
pub open spec fn observe_model(m: AggregatorModel, o: ResponseTimeObservation) -> AggregatorModel {
    if m.window.spec_includes(o.time) {
        AggregatorModel { window: m.window, observations: m.observations.push(o.value) }
    } else {
        m
    }
}

/// The statistics an aggregator reports for its current contents.
pub open spec fn statistics_of(m: AggregatorModel) -> ResponseTimeStatistics {
    ResponseTimeStatistics {
        p95: p95_spec(m.observations),
        n: m.observations.len() as usize,
        interval: m.window,
    }
}

/// A windowed response-time percentile calculator. It owns one fixed window
/// and a growing collection of the qualifying observation values.
pub struct WindowedPercentileService {
    pub window: Interval,
    pub qualified_observations: Vec<DurationSecs>,
}

impl View for WindowedPercentileService {
    type V = AggregatorModel;

    open spec fn view(&self) -> AggregatorModel {
        AggregatorModel { window: self.window, observations: self.qualified_observations@ }
    }
}

impl WindowedPercentileService {
    /// Create a new windowed percentile service for a given time window.
    /// It starts with no observations.
    pub fn new(window: Interval) -> (r: Self)
        ensures
            r@ == (AggregatorModel { window, observations: Seq::<DurationSecs>::empty() }),
    {
        WindowedPercentileService { window, qualified_observations: Vec::new() }
    }

    /// Record one observation: its value is kept when its time falls inside
    /// the window and silently dropped otherwise. No error is ever raised.
    pub fn add_observation(&mut self, datum: &ResponseTimeObservation)
        ensures
            final(self)@ == observe_model(old(self)@, *datum),
    {
        if self.window.includes(datum.time) {
            self.qualified_observations.push(datum.value);
        }
    }

    /// The 95th-percentile level of the values accepted so far.
    fn get_p95(&self) -> (r: Option<DurationSecs>)
        ensures
            r == p95_spec(self@.observations),
    {
        p95(&self.qualified_observations)
    }

    /// Compute fresh statistics over the current contents. Read-only: the
    /// state is not reset or mutated, so repeated calls with no observation
    /// in between return identical results.
    pub fn compute_statistics(&self) -> (r: ResponseTimeStatistics)
        ensures
            r == statistics_of(self@),
    {
        ResponseTimeStatistics {
            p95: self.get_p95(),
            n: self.qualified_observations.len(),
            interval: self.window,
        }
    }
}

/// An observation whose time lies outside the window leaves the aggregator,
/// and hence every later statistics computation, unchanged.
pub proof fn lemma_out_of_window_observation_ignored(
    m: AggregatorModel,
    o: ResponseTimeObservation,
)
    requires
        !m.window.spec_includes(o.time),
    ensures
        observe_model(m, o) == m,
        statistics_of(observe_model(m, o)) == statistics_of(m),
{
}

/// Statistics are a pure function of the aggregator's state: two
/// computations with no observation in between give identical results.
pub proof fn lemma_statistics_deterministic(
    m: AggregatorModel,
    r1: ResponseTimeStatistics,
    r2: ResponseTimeStatistics,
)
    requires
        r1 == statistics_of(m),
        r2 == statistics_of(m),
    ensures
        r1 == r2,
{
}

/// Delivering a sequence of observations, one at a time, in order.
pub open spec fn observe_all(m: AggregatorModel, os: Seq<ResponseTimeObservation>)
    -> AggregatorModel
    decreases os.len(),
{
    if os.len() == 0 {
        m
    } else {
        observe_model(observe_all(m, os.drop_last()), os.last())
    }
}

/// The values of the qualifying observations of `os`, in delivery order.
pub open spec fn qualifying_values(w: Interval, os: Seq<ResponseTimeObservation>)
    -> Seq<DurationSecs>
    decreases os.len(),
{
    if os.len() == 0 {
        Seq::empty()
    } else if w.spec_includes(os.last().time) {
        qualifying_values(w, os.drop_last()).push(os.last().value)
    } else {
        qualifying_values(w, os.drop_last())
    }
}

/// After a run of observations is delivered, the aggregator holds exactly
/// what it held before plus the qualifying values of that run, in order. A
/// statistics computation at that point therefore reflects exactly the
/// observations delivered before it, and none delivered after it.
pub proof fn lemma_observations_before_query(
    m: AggregatorModel,
    before: Seq<ResponseTimeObservation>,
)
    ensures
        observe_all(m, before).window == m.window,
        observe_all(m, before).observations == m.observations + qualifying_values(
            m.window,
            before,
        ),
    decreases before.len(),
{
    if before.len() == 0 {
        assert(m.observations + qualifying_values(m.window, before) =~= m.observations);
    } else {
        lemma_observations_before_query(m, before.drop_last());
        if m.window.spec_includes(before.last().time) {
            assert((m.observations + qualifying_values(m.window, before.drop_last())).push(
                before.last().value,
            ) =~= m.observations + qualifying_values(m.window, before));
        }
    }
}

/// The count a query reports is the number of qualifying observations
/// delivered before it, on top of whatever the aggregator already held.
pub proof fn lemma_count_at_query(m: AggregatorModel, before: Seq<ResponseTimeObservation>)
    requires
        m.observations.len() + qualifying_values(m.window, before).len() <= usize::MAX,
    ensures
        statistics_of(observe_all(m, before)).n == m.observations.len() + qualifying_values(
            m.window,
            before,
        ).len(),
{
    lemma_observations_before_query(m, before);
}

} // verus!
