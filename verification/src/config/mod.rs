//! Configuration options.
use crate::components::discovery::Config as DiscoveryConfig;
use crate::components::workers::TaskWorkers;
use vstd::prelude::*;

pub mod events;
pub mod logging;

pub use self::events::EventsConfig;
pub use self::events::SnapshotsConfig;
pub use self::logging::LoggingConfig;
pub use self::logging::LoggingLevel;

verus! {

/// Timeouts used throughout the system.
#[derive(Clone, Copy, Debug, PartialEq, Eq, Structural)]
pub struct TimeoutsConfig {
    /// Seconds to wait for an agent to answer.
    pub agents_api: u64,
}

impl Default for TimeoutsConfig {
    fn default() -> (config: TimeoutsConfig)
        ensures
            config == (TimeoutsConfig { agents_api: 15 }),
    {
        TimeoutsConfig { agents_api: 15 }
    }
}

/// Configuration options of the control plane, as far as the refresh of
/// clusters reads them.
#[derive(Debug, PartialEq, Eq)]
pub struct Config {
    /// Agent discovery configuration.
    pub discovery: DiscoveryConfig,
    /// Events configuration.
    pub events: EventsConfig,
    /// Logging configuration.
    pub logging: LoggingConfig,
    /// Task workers enabling configuration.
    pub task_workers: TaskWorkers,
    /// Timeouts configured here are used throughout the system for various reasons.
    pub timeouts: TimeoutsConfig,
}

impl Default for Config {
    fn default() -> (config: Config)
        ensures
            config.discovery == (DiscoveryConfig { interval: 60 }),
            config.events.snapshots == (SnapshotsConfig { enabled: true, frequency: 60 }),
            config.logging@.level == LoggingLevel::Info,
            config.task_workers == (TaskWorkers { default: true, cluster_refresh: None }),
            config.timeouts == (TimeoutsConfig { agents_api: 15 }),
    {
        Config {
            discovery: DiscoveryConfig::default(),
            events: EventsConfig::default(),
            logging: LoggingConfig::default(),
            task_workers: TaskWorkers::default(),
            timeouts: TimeoutsConfig::default(),
        }
    }
}

impl Config {
    /// Apply transformations to the configuration to derive some parameters:
    /// the rule for the logging level `Debug`. Nothing else changes.
    pub fn transform(self) -> (out: Config)
        ensures
            out.logging@ == self.logging@.transformed(),
            out.discovery == self.discovery,
            out.events == self.events,
            out.task_workers == self.task_workers,
            out.timeouts == self.timeouts,
    {
        Config {
            discovery: self.discovery,
            events: self.events,
            logging: self.logging.transform(),
            task_workers: self.task_workers,
            timeouts: self.timeouts,
        }
    }
}

} // verus!
