//! A small telemetry pipeline that watches response-time measurements.
//!
//! Observations are restricted to a configured time window, the 95th
//! percentile of the qualifying values is computed on demand, and a breach
//! notification is produced whenever that percentile meets or exceeds a
//! configured maximum.
//!
//! Timestamps and durations are plain signed counts of seconds: the library
//! only ever compares them, so any totally ordered encoding works, and the
//! caller picks the clock.

pub mod aggregator;
pub mod interval;
pub mod messages;
pub mod monitor;
pub mod observation;
pub mod percentile;
pub mod pipeline;

pub use aggregator::ResponseTimeStatistics;
pub use aggregator::WindowedPercentileService;
pub use interval::Interval;
pub use interval::Timestamp;
pub use messages::CalculateResponseTimeStatistics;
pub use messages::ObserveResponseTime;
pub use messages::ResponseTimeStatisticsCalculated;
pub use monitor::BreachNotification;
pub use monitor::ResponseTimePerformanceMonitorService;
pub use observation::DurationSecs;
pub use observation::ResponseTimeObservation;
pub use percentile::p95;
pub use pipeline::CalculateOutcome;
pub use pipeline::PipelineError;
pub use pipeline::ResponseTimeMonitoringPipeline;
