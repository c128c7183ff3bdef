//! The configuration that the processor consumes.

use vstd::prelude::*;

verus! {

/// Event bus configuration.
#[derive(Debug, Clone)]
pub struct MqttConfig {
    /// Broker endpoint hostname.
    pub endpoint: String,
    /// Broker port.
    pub port: u16,
    /// Client ID for the connection.
    pub client_id: String,
    /// Topic prefix of the leak detection events.
    pub topic_prefix: String,
    /// Maximum number of messages to buffer in the processing queue.
    /// Messages are dropped when this limit is exceeded.
    pub queue_capacity: usize,
}

impl Default for MqttConfig {
    fn default() -> (r: Self)
        ensures
            r.endpoint@ == "mqtt.forge"@,
            r.port == 1884,
            r.client_id@ == "carbide-dsx-exchange-consumer"@,
            r.topic_prefix@ == "cronus/v1"@,
            r.queue_capacity == 1024,
    {
        MqttConfig {
            endpoint: "mqtt.forge".to_owned(),
            port: 1884,
            client_id: "carbide-dsx-exchange-consumer".to_owned(),
            topic_prefix: "cronus/v1".to_owned(),
            queue_capacity: 1024,
        }
    }
}

/// One hour, in milliseconds.
pub const ONE_HOUR_MS: u64 = 3_600_000;

/// Cache configuration for metadata and value state caching.
#[derive(Debug, Clone, Copy, PartialEq, Eq, Structural)]
pub struct CacheConfig {
    /// Time-to-live for metadata cache entries, in milliseconds.
    pub metadata_ttl: u64,
    /// Time-to-live for value state cache entries (for deduplication), in
    /// milliseconds.
    pub value_state_ttl: u64,
}

impl Default for CacheConfig {
    fn default() -> (r: Self)
        ensures
            r.metadata_ttl == ONE_HOUR_MS,
            r.value_state_ttl == ONE_HOUR_MS,
    {
        CacheConfig { metadata_ttl: ONE_HOUR_MS, value_state_ttl: ONE_HOUR_MS }
    }
}

/// Metrics configuration.
#[derive(Debug, Clone)]
pub struct MetricsConfig {
    /// Metrics listener endpoint.
    pub endpoint: String,
}

impl Default for MetricsConfig {
    fn default() -> (r: Self)
        ensures
            r.endpoint@ == "0.0.0.0:9009"@,
    {
        MetricsConfig { endpoint: "0.0.0.0:9009".to_owned() }
    }
}

} // verus!
