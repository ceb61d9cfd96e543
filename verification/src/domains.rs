//! Configuration of domains: command sources, event sinks, fixed instances,
//! their power and media settings, and maintenance windows.
use std::collections::HashSet;
use vstd::prelude::*;

use crate::ids::{AppId, DomainId, EngineId, FixedInstanceId, ModelId};
use crate::time::{TimeRange, Timestamp};

verus! {

/// Default minimum task length, in milliseconds.
pub fn default_min_task_length() -> (ms: i64)
    ensures
        ms == 5_000,
{
    5_000
}

/// Source of commands for domains
#[derive(Clone, Debug, PartialEq)]
pub enum DomainCommandSource {
    /// Domain command source disabled
    Disabled,
    /// Pulls events from NATS JetStream
    JetStream {
        /// where to connect to
        url: String,
        /// Topic to load for commands
        topic: String,
    },
    /// Consume a kafka topic
    Kafka {
        /// Topic where commands to the domain will be sent
        topic: String,
        /// Kafka broker list to be used for commands and events
        brokers: String,
        /// Username used to consume commands
        username: String,
        /// SASL SCRAM password used to consume commands
        password: String,
        /// Read after this offset from event stream, or default to the latest one persisted
        offset: Option<i64>,
    },
}

impl Default for DomainCommandSource {
    fn default() -> (s: Self)
        ensures
            s == DomainCommandSource::Disabled,
    {
        Self::Disabled
    }
}

/// Sink for events of domains
#[derive(Clone, Debug, PartialEq)]
pub enum DomainEventSink {
    /// Disable sending of domain events
    Disabled,
    /// Emit events as logs
    Log,
    /// Emit events to NATS JetStream
    JetStream {
        /// Valid NATS URL to connect to
        url: String,
        /// Topic to write events to
        topic: String,
    },
    /// Produce to a kafka topic
    Kafka {
        /// Topic where events from the domain may be sent
        topic: String,
        /// Kafka broker list to be used for commands and events
        brokers: String,
        /// Username used to produce events
        username: String,
        /// SASL SCRAM password used to produce events
        password: String,
    },
}

impl Default for DomainEventSink {
    fn default() -> (s: Self)
        ensures
            s == DomainEventSink::Log,
    {
        Self::Log
    }
}

/// Limits on dynamic instances
#[derive(Clone, Debug, PartialEq)]
pub struct DynamicInstanceLimits {
    /// Maximum number of concurrent dynamic instances
    ///
    /// Takes precedence over over total resource usage. For example, there may be more resources
    /// but licensing limits the amount of instances.
    pub max_instances: usize,
}

/// Configuration of how a fixed instance is connected to the domain
#[derive(Clone, Debug, PartialEq, Eq, Hash)]
pub struct DomainFixedInstanceEngine {
    /// Engine hosting the instance, if any
    pub engine_id: EngineId,
    /// Instance inputs start at index on engine
    pub input_start: u32,
    /// Instance outputs start at index on engine
    pub output_start: u32,
}

#[derive(Clone, Copy, Debug, PartialEq)]
pub struct FixedInstanceRouting {
    pub send_count: usize,
    pub send_channel: usize,
    pub return_count: usize,
    pub return_channel: usize,
}

/// Instance power settings
#[derive(Clone, Debug, PartialEq)]
pub struct DomainPowerInstanceConfig {
    /// Number of milliseconds to wait to warm up after powering on
    pub warm_up_ms: usize,
    /// Number of milliseconds to wait to cool down after powering down
    pub cool_down_ms: usize,
    /// Number of milliseconds to wait before automatically powering down after idle
    pub idle_off_delay_ms: usize,
    /// Power instance used to distribute power to this instance
    pub instance: FixedInstanceId,
    /// Which channel on the power instance is distributing power to this instance
    pub channel: usize,
}

/// Default warm up time after powering on, in milliseconds.
pub fn default_power_warmup_ms() -> (ms: usize)
    ensures
        ms == 2_500,
{
    2_500
}

/// Default cool down time after powering down, in milliseconds.
pub fn default_power_cool_down_ms() -> (ms: usize)
    ensures
        ms == 2_500,
{
    2_500
}

/// Default idle time before powering down, in milliseconds.
pub fn default_power_idle_ms() -> (ms: usize)
    ensures
        ms == 60_000,
{
    60_000
}

/// Instance media settings
#[derive(Clone, Debug, PartialEq)]
pub struct DomainMediaInstanceConfig {
    /// Lenght of the inserted media in milliseconds
    pub length_ms: usize,
    /// WHen rewinding to make space for contiguous renders, should the driver rewind to start or just enough to start rendering
    pub renders_rewind_to_start: bool,
    /// Behaviour of playing back (streaming) and hitting end of media
    ///
    /// - If null, rewind to start
    /// - Otherwise, rewind by specified amount of milliseconds
    pub play_rewind: Option<usize>,
}

/// Maintenance window
#[derive(Clone, Debug, PartialEq)]
pub struct Maintenance {
    /// Time during which maintenance is taking place (may overlap with others)
    pub time: TimeRange,
    /// Human readable string about it, or URL to a web page detailing more information
    pub reason: String,
}

/// Configuration of a fixed instance
#[derive(Debug)]
pub struct DomainFixedInstanceConfig {
    /// Configuration of how a fixed instance is connected to the domain
    pub engine: Option<DomainFixedInstanceEngine>,
    /// Additional models with parameters or reports that are merged with the instance model
    pub sidecars: HashSet<ModelId>,
    /// Optional configuration to powers on/off instance to conserve energy
    pub power: Option<DomainPowerInstanceConfig>,
    /// Optional configuration if instance handles media (such as tape machines)
    pub media: Option<DomainMediaInstanceConfig>,
    /// Apps allowed to access the instance or null if the domain defaults are used
    pub apps_override: Option<HashSet<AppId>>,
    /// Maintenance windows on this instance
    pub maintenance: Vec<Maintenance>,
}

/// Fixed instance summary for apps
#[derive(Debug)]
pub struct AppFixedInstance {
    /// If true, the instance may need to be powered up
    pub power: bool,
    /// If true, the instance is using media and may rewind
    pub media: bool,
    /// Additional models with parameters or reports that are merged with the instance model
    pub sidecars: HashSet<ModelId>,
    /// Configured maintenance time windows during which the instance should not serve requests
    pub maintenance: Vec<Maintenance>,
}

impl vstd::std_specs::convert::FromSpecImpl<DomainFixedInstanceConfig> for AppFixedInstance {
    open spec fn obeys_from_spec() -> bool {
        true
    }

    open spec fn from_spec(instance: DomainFixedInstanceConfig) -> AppFixedInstance {
        AppFixedInstance {
            power: instance.power is Some,
            media: instance.media is Some,
            sidecars: instance.sidecars,
            maintenance: instance.maintenance,
        }
    }
}

impl From<DomainFixedInstanceConfig> for AppFixedInstance {
    fn from(instance: DomainFixedInstanceConfig) -> AppFixedInstance {
        let DomainFixedInstanceConfig { sidecars, power, media, maintenance, .. } = instance;
        AppFixedInstance { power: power.is_some(), media: media.is_some(), maintenance, sidecars }
    }
}

/// Add maintenance to an object
#[derive(Clone, Debug)]
pub struct AddMaintenance {
    /// When is it taking place
    pub time: TimeRange,
    /// WHat is the reason for maintenance (human readable string or URL with more information
    pub reason: String,
}

/// Clear maintenance from an object
#[derive(Clone, Debug)]
pub struct ClearMaintenance {
    /// If not null, clear all maitnenance before this timestamp
    pub before: Option<Timestamp>,
    /// If not null, clear all maitnenance after this timestamp
    pub after: Option<Timestamp>,
}

/// The domain has been updated
#[derive(Clone, Debug)]
pub enum DomainUpdated {
    /// Updated normally
    Updated(DomainId),
}

} // verus!
