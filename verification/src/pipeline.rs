use crate::aggregator::observe_all;
use crate::aggregator::observe_model;
use crate::aggregator::qualifying_values;
use crate::aggregator::statistics_of;
use crate::aggregator::AggregatorModel;
use crate::aggregator::WindowedPercentileService;
use crate::interval::Interval;
use crate::messages::CalculateResponseTimeStatistics;
use crate::messages::ObserveResponseTime;
use crate::messages::ResponseTimeStatisticsCalculated;
use crate::monitor::breach_of;
use crate::monitor::BreachNotification;
use crate::monitor::ResponseTimePerformanceMonitorService;
use crate::observation::DurationSecs;
use crate::observation::ResponseTimeObservation;
use vstd::prelude::*;

verus! {

/// Why a pipeline request failed.
#[derive(Debug, Clone, Copy, PartialEq, Eq)]
pub enum PipelineError {
    /// The request needs a started pipeline: it was made before activation
    /// or after deactivation. Distinct from "no data collected yet", which
    /// succeeds with an empty result.
    InvalidState,
}

/// What a successful calculation hands back: the statistics reply, plus the
/// breach notification the monitor decided on while evaluating it. The
/// monitor has already seen the statistics by the time the caller gets the
/// outcome.
#[derive(Debug, Clone, Copy, PartialEq, Eq)]
pub struct CalculateOutcome {
    pub statistics: ResponseTimeStatisticsCalculated,
    pub breach: Option<BreachNotification>,
}

/// The lifecycle of a monitoring pipeline. The only transitions are
/// `New -> Started` (activation) and `Started -> Stopped` (deactivation),
/// each taken once and irreversibly; there is no way out of `Stopped`.
pub enum ResponseTimeMonitoringPipelineState {
    /// Configured, not yet activated: holds the configuration only.
    New { window: Interval, maximum_duration: DurationSecs },
    /// Live: owns the two child components, created at activation.
    Started { wps: WindowedPercentileService, rtpms: ResponseTimePerformanceMonitorService },
    /// Terminal: no further work is accepted.
    Stopped,
}

/// The mathematical content of a pipeline: its lifecycle stage and, once
/// started, the aggregator's contents and the monitor's maximum.
pub enum PipelineModel {
    New { window: Interval, maximum_duration: DurationSecs },
    Started { aggregator: AggregatorModel, maximum: DurationSecs },
    Stopped,
}

/// Activation: from `New`, create the children (the aggregator starts
/// empty) and move to `Started`. In any other state activation is a no-op
/// that does not recreate the children.
pub open spec fn activate_model(m: PipelineModel) -> PipelineModel {
    match m {
        PipelineModel::New { window, maximum_duration } => PipelineModel::Started {
            aggregator: AggregatorModel { window, observations: Seq::empty() },
            maximum: maximum_duration,
        },
        _ => m,
    }
}

/// Observation handling: in `Started` the observation goes to the
/// aggregator, which keeps it only if it falls inside the window; in `New`
/// or `Stopped` it is silently ignored.
pub open spec fn pipeline_observe_model(m: PipelineModel, o: ResponseTimeObservation)
    -> PipelineModel {
    match m {
        PipelineModel::Started { aggregator, maximum } => PipelineModel::Started {
            aggregator: observe_model(aggregator, o),
            maximum,
        },
        _ => m,
    }
}

/// Calculation: in `Started`, the statistics of the aggregator's current
/// contents together with the monitor's breach decision on them; in `New`
/// or `Stopped`, an invalid-state error.
pub open spec fn calculate_model(m: PipelineModel) -> Result<CalculateOutcome, PipelineError> {
    match m {
        PipelineModel::Started { aggregator, maximum } => {
            let stats = statistics_of(aggregator);
            Ok(
                CalculateOutcome {
                    statistics: ResponseTimeStatisticsCalculated { value: stats },
                    breach: breach_of(maximum, stats),
                },
            )
        },
        _ => Err(PipelineError::InvalidState),
    }
}

/// Response-time monitoring pipeline: the orchestrator. It owns the
/// lifecycle state machine, creates and wires the aggregator and the
/// monitor at activation, forwards observations to the aggregator, and
/// relays every computed statistics result to the monitor before handing it
/// back to the caller.
pub struct ResponseTimeMonitoringPipeline {
    pub state: ResponseTimeMonitoringPipelineState,
}

impl View for ResponseTimeMonitoringPipeline {
    type V = PipelineModel;

    open spec fn view(&self) -> PipelineModel {
        match self.state {
            ResponseTimeMonitoringPipelineState::New {
                window,
                maximum_duration,
            } => PipelineModel::New { window, maximum_duration },
            ResponseTimeMonitoringPipelineState::Started { wps, rtpms } => PipelineModel::Started {
                aggregator: wps@,
                maximum: rtpms.maximum,
            },
            ResponseTimeMonitoringPipelineState::Stopped => PipelineModel::Stopped,
        }
    }
}

impl ResponseTimeMonitoringPipeline {
    /// Create a new pipeline, configured but not yet activated.
    pub fn new(window: Interval, maximum_duration: DurationSecs) -> (r: Self)
        ensures
            r@ == (PipelineModel::New { window, maximum_duration }),
    {
        ResponseTimeMonitoringPipeline {
            state: ResponseTimeMonitoringPipelineState::New { window, maximum_duration },
        }
    }

    /// Transition once, irreversibly, from `New` to `Started`, creating the
    /// aggregator (empty) and the monitor at this moment. In any other
    /// state this is a no-op: a second activation does not recreate the
    /// children.
    pub fn activate(&mut self)
        ensures
            final(self)@ == activate_model(old(self)@),
    {
        match &self.state {
            ResponseTimeMonitoringPipelineState::New { window, maximum_duration } => {
                let wps = WindowedPercentileService::new(*window);
                let rtpms = ResponseTimePerformanceMonitorService::new(*maximum_duration);
                self.state = ResponseTimeMonitoringPipelineState::Started { wps, rtpms };
            },
            _ => {},
        }
    }

    /// Transition to `Stopped`, irreversibly; the children go away with the
    /// state. No further work is accepted afterwards.
    pub fn deactivate(&mut self)
        ensures
            final(self)@ == PipelineModel::Stopped,
    {
        self.state = ResponseTimeMonitoringPipelineState::Stopped;
    }

    /// Forward an observation to the aggregator, fire-and-forget: the
    /// caller gets no acknowledgement. Valid only in `Started`; in `New` or
    /// `Stopped` the observation is silently ignored — no error, no signal.
    pub fn observe(&mut self, msg: ObserveResponseTime)
        ensures
            final(self)@ == pipeline_observe_model(old(self)@, msg.datum),
    {
        match &mut self.state {
            ResponseTimeMonitoringPipelineState::Started { wps, .. } => {
                wps.add_observation(&msg.datum);
            },
            _ => {},
        }
    }

    /// Compute statistics over the aggregator's current contents and relay
    /// them to the monitor; the monitor's breach decision is part of the
    /// outcome, so the breach evaluation for a calculation happens before
    /// its caller sees the result. Valid only in `Started`: in `New` or
    /// `Stopped` the request fails with an invalid-state error rather than
    /// returning an empty result.
    pub fn calculate(&self, _msg: CalculateResponseTimeStatistics) -> (r: Result<
        CalculateOutcome,
        PipelineError,
    >)
        ensures
            r == calculate_model(self@),
            r is Err <==> !(self@ is Started),
    {
        match &self.state {
            ResponseTimeMonitoringPipelineState::Started { wps, rtpms } => {
                let stats = wps.compute_statistics();
                let breach = rtpms.on_statistics(&stats);
                Ok(
                    CalculateOutcome {
                        statistics: ResponseTimeStatisticsCalculated { value: stats },
                        breach,
                    },
                )
            },
            _ => Err(PipelineError::InvalidState),
        }
    }
}

/// A calculation is a pure function of the pipeline's state and does not
/// change that state: two calculations with no observation, activation or
/// deactivation in between return identical results.
pub proof fn lemma_calculate_deterministic(
    m: PipelineModel,
    r1: Result<CalculateOutcome, PipelineError>,
    r2: Result<CalculateOutcome, PipelineError>,
)
    requires
        r1 == calculate_model(m),
        r2 == calculate_model(m),
    ensures
        r1 == r2,
{
}

/// Delivering a run of observations to the pipeline, one at a time, in
/// order.
pub open spec fn pipeline_observe_all(m: PipelineModel, os: Seq<ResponseTimeObservation>)
    -> PipelineModel
    decreases os.len(),
{
    if os.len() == 0 {
        m
    } else {
        pipeline_observe_model(pipeline_observe_all(m, os.drop_last()), os.last())
    }
}

/// Observations delivered to a started pipeline all land in its aggregator;
/// the monitor and the lifecycle stage are untouched.
pub proof fn lemma_pipeline_observe_all_started(
    agg: AggregatorModel,
    maximum: DurationSecs,
    os: Seq<ResponseTimeObservation>,
)
    ensures
        pipeline_observe_all(PipelineModel::Started { aggregator: agg, maximum }, os) == (
        PipelineModel::Started { aggregator: observe_all(agg, os), maximum }),
    decreases os.len(),
{
    if os.len() > 0 {
        lemma_pipeline_observe_all_started(agg, maximum, os.drop_last());
    }
}

/// A calculation issued after the observations `before` are delivered, and
/// before any later observation is delivered, succeeds and counts exactly
/// the qualifying observations of `before` on top of what the aggregator
/// already held; observations delivered after the calculation play no part
/// in its result.
pub proof fn lemma_calculate_counts_prior_observations(
    agg: AggregatorModel,
    maximum: DurationSecs,
    before: Seq<ResponseTimeObservation>,
)
    requires
        agg.observations.len() + qualifying_values(agg.window, before).len() <= usize::MAX,
    ensures
        ({
            let at_query = pipeline_observe_all(
                PipelineModel::Started { aggregator: agg, maximum },
                before,
            );
            &&& at_query == (PipelineModel::Started {
                aggregator: observe_all(agg, before),
                maximum,
            })
            &&& calculate_model(at_query) matches Ok(out) && out.statistics.value.n
                == agg.observations.len() + qualifying_values(agg.window, before).len()
        }),
{
    lemma_pipeline_observe_all_started(agg, maximum, before);
    crate::aggregator::lemma_count_at_query(agg, before);
}

} // verus!
