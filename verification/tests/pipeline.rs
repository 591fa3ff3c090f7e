use response_time_monitor::CalculateResponseTimeStatistics;
use response_time_monitor::Interval;
use response_time_monitor::ObserveResponseTime;
use response_time_monitor::PipelineError;
use response_time_monitor::ResponseTimeMonitoringPipeline;
use response_time_monitor::ResponseTimeObservation;
use response_time_monitor::ResponseTimePerformanceMonitorService;
use response_time_monitor::ResponseTimeStatistics;
use response_time_monitor::Timestamp;
use response_time_monitor::WindowedPercentileService;

/// Seconds in one day.
const DAY: i64 = 86400;

/// A window covering one 31-day month, half-open.
fn month_window() -> Interval {
    Interval::new(0, 31 * DAY)
}

/// A timestamp on the first day of the window, `m` minutes after its start.
fn first_day_minute(m: i64) -> Timestamp {
    m * 60
}

#[test]
fn aggregator_counts_only_window_observations() {
    let mut service = WindowedPercentileService::new(Interval::new(100, 200));
    service.add_observation(&ResponseTimeObservation::new(7, 150));
    service.add_observation(&ResponseTimeObservation::new(8, 99));
    service.add_observation(&ResponseTimeObservation::new(9, 200));
    let stats = service.compute_statistics();
    assert_eq!(1, stats.n);
    assert_eq!(Some(7), stats.p95);
    assert_eq!(Interval::new(100, 200), stats.interval);
}

#[test]
fn aggregator_statistics_are_idempotent() {
    let mut service = WindowedPercentileService::new(Interval::new(0, 10));
    service.add_observation(&ResponseTimeObservation::new(3, 1));
    service.add_observation(&ResponseTimeObservation::new(5, 2));
    let first = service.compute_statistics();
    let second = service.compute_statistics();
    assert_eq!(first, second);
}

#[test]
fn monitor_ignores_empty_statistics() {
    let monitor = ResponseTimePerformanceMonitorService::new(180);
    let stats = ResponseTimeStatistics::new(0, None, Interval::new(0, 1));
    assert_eq!(None, monitor.on_statistics(&stats));
}

#[test]
fn monitor_silent_below_maximum() {
    let monitor = ResponseTimePerformanceMonitorService::new(180);
    let stats = ResponseTimeStatistics::new(10, Some(179), Interval::new(0, 1));
    assert_eq!(None, monitor.on_statistics(&stats));
}

#[test]
fn monitor_signals_at_exactly_the_maximum() {
    let monitor = ResponseTimePerformanceMonitorService::new(180);
    let stats = ResponseTimeStatistics::new(10, Some(180), Interval::new(0, 7));
    let breach = monitor.on_statistics(&stats).expect("meeting the maximum is a breach");
    assert_eq!(180, breach.actual);
    assert_eq!(180, breach.maximum);
    assert_eq!(Interval::new(0, 7), breach.interval);
}

#[test]
fn calculate_on_unactivated_pipeline_is_invalid_state() {
    let pipeline = ResponseTimeMonitoringPipeline::new(month_window(), 180);
    let result = pipeline.calculate(CalculateResponseTimeStatistics::new());
    assert_eq!(Err(PipelineError::InvalidState), result);
}

#[test]
fn calculate_on_stopped_pipeline_is_invalid_state() {
    let mut pipeline = ResponseTimeMonitoringPipeline::new(month_window(), 180);
    pipeline.activate();
    pipeline.deactivate();
    let result = pipeline.calculate(CalculateResponseTimeStatistics::new());
    assert_eq!(Err(PipelineError::InvalidState), result);
}

#[test]
fn observations_before_activation_are_dropped() {
    let mut pipeline = ResponseTimeMonitoringPipeline::new(month_window(), 180);
    pipeline.observe(ObserveResponseTime::new(ResponseTimeObservation::new(
        200,
        first_day_minute(1),
    )));
    pipeline.activate();
    let outcome = pipeline
        .calculate(CalculateResponseTimeStatistics::new())
        .expect("started pipeline");
    assert_eq!(0, outcome.statistics.value.n);
    assert_eq!(None, outcome.statistics.value.p95);
}

#[test]
fn observations_after_deactivation_are_dropped() {
    let mut pipeline = ResponseTimeMonitoringPipeline::new(month_window(), 180);
    pipeline.activate();
    pipeline.deactivate();
    pipeline.observe(ObserveResponseTime::new(ResponseTimeObservation::new(
        200,
        first_day_minute(1),
    )));
    let result = pipeline.calculate(CalculateResponseTimeStatistics::new());
    assert_eq!(Err(PipelineError::InvalidState), result);
}

#[test]
fn second_activation_does_not_recreate_children() {
    let mut pipeline = ResponseTimeMonitoringPipeline::new(month_window(), 180);
    pipeline.activate();
    pipeline.observe(ObserveResponseTime::new(ResponseTimeObservation::new(
        200,
        first_day_minute(1),
    )));
    pipeline.activate();
    let outcome = pipeline
        .calculate(CalculateResponseTimeStatistics::new())
        .expect("started pipeline");
    assert_eq!(1, outcome.statistics.value.n);
}

#[test]
fn out_of_window_observation_never_affects_statistics() {
    let mut pipeline = ResponseTimeMonitoringPipeline::new(Interval::new(0, 100), 180);
    pipeline.activate();
    pipeline.observe(ObserveResponseTime::new(ResponseTimeObservation::new(5, 50)));
    let before = pipeline
        .calculate(CalculateResponseTimeStatistics::new())
        .expect("started pipeline");
    pipeline.observe(ObserveResponseTime::new(ResponseTimeObservation::new(7, 100)));
    pipeline.observe(ObserveResponseTime::new(ResponseTimeObservation::new(7, -1)));
    let after = pipeline
        .calculate(CalculateResponseTimeStatistics::new())
        .expect("started pipeline");
    assert_eq!(before.statistics.value.n, after.statistics.value.n);
    assert_eq!(before, after);
}

#[test]
fn calculate_is_idempotent_without_new_observations() {
    let mut pipeline = ResponseTimeMonitoringPipeline::new(month_window(), 180);
    pipeline.activate();
    for i in 0..30 {
        pipeline.observe(ObserveResponseTime::new(ResponseTimeObservation::new(
            100 + i,
            first_day_minute(i),
        )));
    }
    let first = pipeline.calculate(CalculateResponseTimeStatistics::new());
    let second = pipeline.calculate(CalculateResponseTimeStatistics::new());
    assert_eq!(first, second);
}

#[test]
fn calculate_counts_observations_delivered_before_it() {
    let mut pipeline = ResponseTimeMonitoringPipeline::new(month_window(), 180);
    pipeline.activate();
    for i in 0..3 {
        pipeline.observe(ObserveResponseTime::new(ResponseTimeObservation::new(
            10 + i,
            first_day_minute(i),
        )));
    }
    let at_query = pipeline
        .calculate(CalculateResponseTimeStatistics::new())
        .expect("started pipeline");
    for i in 0..2 {
        pipeline.observe(ObserveResponseTime::new(ResponseTimeObservation::new(
            20 + i,
            first_day_minute(10 + i),
        )));
    }
    // The earlier result reflects exactly the three prior observations; the
    // two later ones show up only in a later query.
    assert_eq!(3, at_query.statistics.value.n);
    let later = pipeline
        .calculate(CalculateResponseTimeStatistics::new())
        .expect("started pipeline");
    assert_eq!(5, later.statistics.value.n);
}

#[test]
fn hundred_observations_yield_p95_of_274_seconds() {
    let mut pipeline = ResponseTimeMonitoringPipeline::new(month_window(), 180);
    pipeline.activate();
    for i in 0..100 {
        pipeline.observe(ObserveResponseTime::new(ResponseTimeObservation::new(
            180 + i,
            first_day_minute(i % 60),
        )));
    }
    let outcome = pipeline
        .calculate(CalculateResponseTimeStatistics::new())
        .expect("started pipeline");
    assert_eq!(100, outcome.statistics.value.n);
    assert_eq!(Some(274), outcome.statistics.value.p95);
    assert_eq!(month_window(), outcome.statistics.value.interval);
}

#[test]
fn breach_signal_emitted_when_p95_exceeds_maximum() {
    let mut pipeline = ResponseTimeMonitoringPipeline::new(month_window(), 180);
    pipeline.activate();
    for i in 0..100 {
        pipeline.observe(ObserveResponseTime::new(ResponseTimeObservation::new(
            180 + i,
            first_day_minute(i % 60),
        )));
    }
    let outcome = pipeline
        .calculate(CalculateResponseTimeStatistics::new())
        .expect("started pipeline");
    let breach = outcome.breach.expect("274 >= 180 must breach");
    assert_eq!(274, breach.actual);
    assert_eq!(180, breach.maximum);
    assert_eq!(month_window(), breach.interval);
}

#[test]
fn no_breach_signal_without_observations() {
    let mut pipeline = ResponseTimeMonitoringPipeline::new(month_window(), 180);
    pipeline.activate();
    let outcome = pipeline
        .calculate(CalculateResponseTimeStatistics::new())
        .expect("started pipeline");
    assert_eq!(0, outcome.statistics.value.n);
    assert_eq!(None, outcome.breach);
}
