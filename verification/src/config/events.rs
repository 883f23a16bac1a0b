//! Configuration of the events that the control plane emits.
use vstd::prelude::*;

verus! {

/// Periodic state snapshots configuration.
#[derive(Clone, Copy, Debug, PartialEq, Eq, Structural)]
pub struct SnapshotsConfig {
    /// Enables the emission of snapshot events.
    pub enabled: bool,
    /// Frequency (expressed as number of cluster state fetches) of snapshot emission.
    pub frequency: u32,
}

impl Default for SnapshotsConfig {
    fn default() -> (config: Self)
        ensures
            config == (SnapshotsConfig { enabled: true, frequency: 60 }),
    {
        Self { enabled: Self::default_enabled(), frequency: Self::default_frequency() }
    }
}

impl SnapshotsConfig {
    /// Default enabled status.
    pub fn default_enabled() -> (enabled: bool)
        ensures
            enabled,
    {
        true
    }

    /// Default snapshot emission frequency.
    pub fn default_frequency() -> (frequency: u32)
        ensures
            frequency == 60,
    {
        60
    }
}

/// Where the events are streamed to.
#[derive(Clone, Copy, Debug, PartialEq, Eq, Structural)]
pub enum StreamConfig {
    /// The events are written to the primary store.
    Store,
    /// The events are written to the message broker.
    Kafka,
}

/// Events configuration options.
#[derive(Clone, Copy, Debug, PartialEq, Eq, Structural)]
pub struct EventsConfig {
    /// Periodic state snapshots configuration.
    pub snapshots: SnapshotsConfig,
    /// Events streaming backend.
    pub stream: StreamConfig,
}

impl Default for EventsConfig {
    fn default() -> (config: Self)
        ensures
            config == (EventsConfig {
                snapshots: SnapshotsConfig { enabled: true, frequency: 60 },
                stream: StreamConfig::Store,
            }),
    {
        EventsConfig { snapshots: SnapshotsConfig::default(), stream: StreamConfig::Store }
    }
}

} // verus!
