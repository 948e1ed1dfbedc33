//! Failover logic of a load-balancing TCP relay: health tracking of downstream
//! nodes, the connect-with-fallback procedure, the relay session and its
//! first-byte latency watch.
//!
//! Everything here computes on plain values. The code that owns sockets performs
//! the actions that these state machines ask for and reports what happened.

use vstd::prelude::*;

/// Wall-clock access.
pub mod clock;

/// Downstream health tracker shared between LB and relay endpoints.
pub mod health;

/// What holds of the health tracker over several operations.
pub mod health_laws;

/// Connecting to one of several peers, with retries and a fallback.
pub mod failover;

/// What holds of a whole series of attempts to connect.
pub mod failover_laws;

/// Watching for the first byte of a relayed stream.
pub mod latency;

/// The steps of one relayed connection.
pub mod session;

verus! {

/// Peer token.
#[derive(Debug, Clone, Copy, PartialEq, Eq, Structural)]
pub struct Token(pub u8);

/// Health check configuration for downstream node failover.
#[derive(Debug, Clone, Copy, PartialEq, Eq, Structural)]
pub struct HealthCheckConfig {
    /// Maximum consecutive failures before marking a node unhealthy.
    pub max_fails: u32,
    /// Duration in seconds that an unhealthy node stays excluded.
    pub fail_timeout_secs: u32,
    /// Maximum connect latency in milliseconds before treating as failure.
    /// `None` disables latency-based failover (default).
    pub max_latency_ms: Option<u32>,
}

impl Default for HealthCheckConfig {
    /// Two failures exclude a node for two minutes; latency is not checked.
    fn default() -> (config: Self)
        ensures
            config.max_fails == 2,
            config.fail_timeout_secs == 120,
            config.max_latency_ms is None,
    {
        HealthCheckConfig { max_fails: 2, fail_timeout_secs: 120, max_latency_ms: None }
    }
}

/// The latency limit of a configuration, if latency-based failover is on.
pub fn latency_limit(config: Option<HealthCheckConfig>) -> (limit: Option<u32>)
    ensures
        limit == match config {
            Some(c) => c.max_latency_ms,
            None => None,
        },
{
    match config {
        Some(c) => c.max_latency_ms,
        None => None,
    }
}

/// Whatever [`latency_limit`] returns is the limit of the configuration that it was
/// given; without a configuration, and with one that sets no limit, there is none.
pub proof fn law_limit_is_the_configured_one(
    config: Option<HealthCheckConfig>,
    limit: Option<u32>,
)
    requires
        call_ensures(latency_limit, (config,), limit),
    ensures
        limit is Some ==> config is Some,
        config is Some ==> limit == config->0.max_latency_ms,
{
}

/// The default configuration excludes a node for two minutes after two failures in a row,
/// and does not check latencies.
pub proof fn law_default_config(config: HealthCheckConfig)
    requires
        call_ensures(HealthCheckConfig::default, (), config),
    ensures
        config == (HealthCheckConfig {
            max_fails: 2,
            fail_timeout_secs: 120,
            max_latency_ms: None,
        }),
{
}

/// Load balance traits.
pub trait Balance {
    /// What the choice of a peer depends on.
    type State;

    /// Constructor.
    fn new(weights: &[u8], config: Option<HealthCheckConfig>) -> Self where Self: Sized;

    /// Get next peer.
    fn next(&self, state: &Self::State) -> Option<Token>;

    /// Total peers.
    fn total(&self) -> u8;

    /// Record success for a peer.
    fn on_success(&self, _token: Token) {
    }

    /// Record failure for a peer.
    fn on_failure(&self, _token: Token) {
    }
}

} // verus!
