use vstd::prelude::*;

use crate::clock::{read_clock, stamp};
use crate::HealthCheckConfig;

verus! {

/// Per-downstream-node health state.
#[derive(Debug, Clone, Copy, PartialEq, Eq, Structural)]
pub struct DownstreamNode {
    /// Consecutive failure count.
    pub fails: u32,
    /// Unix timestamp until this node is excluded.
    /// 0 means the node is currently healthy (or has no pending timeout).
    pub checked: u32,
}

/// 32-bit addition that wraps around.
pub open spec fn wrapping_sum(a: u32, b: u32) -> u32 {
    ((a + b) % 0x1_0000_0000) as u32
}

/// The time stamp `timeout` seconds after `now`, or the last one there is where that
/// lies past it.
pub open spec fn deadline(now: u32, timeout: u32) -> u32 {
    if now + timeout > u32::MAX {
        u32::MAX
    } else {
        (now + timeout) as u32
    }
}

impl DownstreamNode {
    /// A node without failures and without a pending timeout.
    pub open spec fn clean() -> DownstreamNode {
        DownstreamNode { fails: 0, checked: 0 }
    }

    /// The failure count has reached the limit.
    pub open spec fn over_limit(self, config: HealthCheckConfig) -> bool {
        self.fails >= config.max_fails
    }

    /// The node may be used at time `now`: it is below the failure limit, or no
    /// timeout is pending, or the timeout has expired.
    pub open spec fn healthy(self, config: HealthCheckConfig, now: u32) -> bool {
        !self.over_limit(config) || self.checked == 0 || self.checked <= now
    }

    /// The node once its health has been looked up at time `now`: a node over the
    /// limit whose timeout is over starts afresh.
    pub open spec fn after_lookup(self, config: HealthCheckConfig, now: u32) -> DownstreamNode {
        if self.over_limit(config) && self.healthy(config, now) {
            DownstreamNode::clean()
        } else {
            self
        }
    }

    /// The node once a failure at time `now` has been counted: a node that is then
    /// over the limit is excluded until the timeout has passed.
    pub open spec fn after_failure(self, config: HealthCheckConfig, now: u32) -> DownstreamNode {
        let counted = DownstreamNode { fails: wrapping_sum(self.fails, 1), checked: self.checked };
        if counted.over_limit(config) {
            DownstreamNode {
                fails: counted.fails,
                checked: deadline(now, config.fail_timeout_secs),
            }
        } else {
            counted
        }
    }
}

/// What a tracker holds: the state of every node, and the configuration.
#[verifier::ext_equal]
pub struct HealthState {
    pub nodes: Seq<DownstreamNode>,
    pub config: HealthCheckConfig,
}

impl HealthState {
    /// `count` clean nodes.
    pub open spec fn fresh(count: nat, config: HealthCheckConfig) -> HealthState {
        HealthState { nodes: Seq::new(count, |i: int| DownstreamNode::clean()), config }
    }

    /// `idx` is the index of a node.
    pub open spec fn tracks(self, idx: int) -> bool {
        0 <= idx < self.nodes.len()
    }

    /// There is a node at `idx`, and it may be used at time `now`.
    pub open spec fn healthy(self, idx: int, now: u32) -> bool {
        self.tracks(idx) && self.nodes[idx].healthy(self.config, now)
    }

    /// The same state with another node at `idx`.
    pub open spec fn with_node(self, idx: int, node: DownstreamNode) -> HealthState {
        HealthState { nodes: self.nodes.update(idx, node), config: self.config }
    }

    /// The state once the health of `idx` has been looked up at time `now`.
    pub open spec fn after_lookup(self, idx: int, now: u32) -> HealthState {
        if self.tracks(idx) {
            self.with_node(idx, self.nodes[idx].after_lookup(self.config, now))
        } else {
            self
        }
    }

    /// The state once a success of `idx` has been reported.
    pub open spec fn after_success(self, idx: int) -> HealthState {
        if self.tracks(idx) {
            self.with_node(idx, DownstreamNode::clean())
        } else {
            self
        }
    }

    /// The state once a failure of `idx` at time `now` has been reported.
    pub open spec fn after_failure(self, idx: int, now: u32) -> HealthState {
        if self.tracks(idx) {
            self.with_node(idx, self.nodes[idx].after_failure(self.config, now))
        } else {
            self
        }
    }

    /// A failure of `idx` at time `now` takes the node from healthy to unhealthy: it
    /// may be used until then, and the failure brings it over the limit.
    pub open spec fn trips(self, idx: int, now: u32) -> bool {
        self.healthy(idx, now) && self.after_failure(idx, now).nodes[idx].over_limit(self.config)
    }
}

/// Downstream health tracker.
///
/// Used by both the LB endpoint (to skip unhealthy nodes during connection)
/// and relay endpoints (to report downstream connection success/failure).
#[derive(Debug)]
pub struct DownstreamHealth {
    nodes: Vec<DownstreamNode>,
    config: HealthCheckConfig,
}

impl View for DownstreamHealth {
    type V = HealthState;

    closed spec fn view(&self) -> HealthState {
        HealthState { nodes: self.nodes@, config: self.config }
    }
}

impl DownstreamHealth {
    /// Create a new health tracker for `count` nodes.
    pub fn new(count: usize, config: HealthCheckConfig) -> (health: Self)
        ensures
            health@ == HealthState::fresh(count as nat, config),
            health@.config == config,
            health@.nodes.len() == count,
            forall|i: int|
                0 <= i < count ==> (#[trigger] health@.nodes[i]).fails == 0
                    && health@.nodes[i].checked == 0,
    {
        let mut nodes: Vec<DownstreamNode> = Vec::new();
        let mut made: usize = 0;
        while made < count
            invariant
                made <= count,
                nodes@ == HealthState::fresh(made as nat, config).nodes,
            decreases count - made,
        {
            nodes.push(DownstreamNode { fails: 0, checked: 0 });
            made = made + 1;
        }
        DownstreamHealth { nodes, config }
    }

    /// The current time, as a 32-bit time stamp: that of a reading of the clock.
    fn now_secs() -> (now: u32)
        ensures
            exists|r: Option<u64>| #[trigger]
                crate::clock::clock_reads(r) && now == crate::clock::stamp_of(r),
    {
        let since_epoch = read_clock();
        stamp(since_epoch)
    }

    /// Check if node at `idx` is healthy at time `now`.
    ///
    /// Automatically recovers a node when its fail timeout expires.
    pub fn is_healthy_at(&mut self, idx: usize, now: u32) -> (healthy: bool)
        ensures
            healthy == old(self)@.healthy(idx as int, now),
            final(self)@ == old(self)@.after_lookup(idx as int, now),
            healthy <==> idx < old(self)@.nodes.len() && {
                let node = old(self)@.nodes[idx as int];
                node.fails < old(self)@.config.max_fails || node.checked == 0 || now
                    >= node.checked
            },
    {
        if idx < self.nodes.len() {
            let node = self.nodes[idx];
            if node.fails < self.config.max_fails {
                assert(self@ == old(self)@.after_lookup(idx as int, now));
                return true;
            }
            if node.checked == 0 || now >= node.checked {
                self.nodes.set(idx, DownstreamNode { fails: 0, checked: 0 });
                return true;
            }
            assert(self@ == old(self)@.after_lookup(idx as int, now));
            false
        } else {
            false
        }
    }

    /// Check if node at `idx` is currently healthy.
    ///
    /// Automatically recovers a node when its fail timeout expires. The answer is that
    /// of [`is_healthy_at`](Self::is_healthy_at) for the time that the clock shows.
    pub fn is_healthy(&mut self, idx: usize) -> (healthy: bool)
        ensures
            exists|r: Option<u64>| #[trigger]
                crate::clock::clock_reads(r) && {
                    let now = crate::clock::stamp_of(r);
                    &&& healthy == old(self)@.healthy(idx as int, now)
                    &&& final(self)@ == old(self)@.after_lookup(idx as int, now)
                },
            !old(self)@.tracks(idx as int) ==> !healthy && final(self)@ == old(self)@,
            old(self)@.tracks(idx as int) && !old(self)@.nodes[idx as int].over_limit(
                old(self)@.config,
            ) ==> healthy && final(self)@ == old(self)@,
            old(self)@.tracks(idx as int) && old(self)@.nodes[idx as int].checked == 0 ==> healthy,
            healthy ==> !final(self)@.nodes[idx as int].over_limit(final(self)@.config)
                || final(self)@.nodes[idx as int] == DownstreamNode::clean(),
            !healthy ==> final(self)@ == old(self)@,
    {
        let now = Self::now_secs();
        let healthy = self.is_healthy_at(idx, now);
        assert(!healthy ==> self@ == old(self)@);
        assert(old(self)@.tracks(idx as int) && !old(self)@.nodes[idx as int].over_limit(
            old(self)@.config,
        ) ==> self@ == old(self)@);
        healthy
    }

    /// Report a successful downstream connection for node at `idx`.
    /// Resets the failure counter.
    pub fn report_success(&mut self, idx: usize)
        ensures
            final(self)@ == old(self)@.after_success(idx as int),
    {
        if idx < self.nodes.len() {
            self.nodes.set(idx, DownstreamNode { fails: 0, checked: 0 });
        }
    }

    /// Report a failed downstream connection for node at `idx` at time `now`.
    ///
    /// Returns `true` if the node just transitioned from healthy to unhealthy
    /// (i.e. the failure threshold was crossed), allowing callers to log the event.
    /// The failure counter wraps around at 32 bits. A node whose timeout ends past the last
    /// 32-bit time stamp stays excluded until that stamp.
    pub fn report_failure_at(&mut self, idx: usize, now: u32) -> (tripped: bool)
        ensures
            tripped == old(self)@.trips(idx as int, now),
            final(self)@ == old(self)@.after_failure(idx as int, now),
    {
        if idx < self.nodes.len() {
            let node = self.nodes[idx];
            let fails: u32 = node.fails.wrapping_add(1);
            if fails >= self.config.max_fails {
                let usable = node.fails < self.config.max_fails || node.checked == 0 || now
                    >= node.checked;
                let checked: u32 = now.saturating_add(self.config.fail_timeout_secs);
                self.nodes.set(idx, DownstreamNode { fails, checked });
                return usable;
            }
            self.nodes.set(idx, DownstreamNode { fails, checked: node.checked });
        }
        false
    }

    /// Report a failed downstream connection for node at `idx`.
    ///
    /// Returns `true` if the node just transitioned from healthy to unhealthy
    /// (i.e. the failure threshold was crossed), allowing callers to log the event.
    /// The effect is that of [`report_failure_at`](Self::report_failure_at) for the time
    /// that the clock shows.
    pub fn report_failure(&mut self, idx: usize) -> (tripped: bool)
        ensures
            exists|r: Option<u64>| #[trigger]
                crate::clock::clock_reads(r) && {
                    let now = crate::clock::stamp_of(r);
                    &&& tripped == old(self)@.trips(idx as int, now)
                    &&& final(self)@ == old(self)@.after_failure(idx as int, now)
                },
            !old(self)@.tracks(idx as int) ==> !tripped && final(self)@ == old(self)@,
            old(self)@.tracks(idx as int) ==> {
                let before = old(self)@.nodes[idx as int];
                let after = final(self)@.nodes[idx as int];
                &&& after.fails == wrapping_sum(before.fails, 1)
                &&& !after.over_limit(old(self)@.config) ==> !tripped && after.checked
                    == before.checked
                &&& after.over_limit(old(self)@.config) && (!before.over_limit(old(self)@.config)
                    || before.checked == 0) ==> tripped
            },
    {
        let now = Self::now_secs();
        self.report_failure_at(idx, now)
    }

    /// Get the total number of nodes tracked.
    pub fn len(&self) -> (count: usize)
        ensures
            count == self@.nodes.len(),
    {
        self.nodes.len()
    }

    /// Check if there are no nodes at all.
    pub fn is_empty(&self) -> (empty: bool)
        ensures
            empty == (self@.nodes.len() == 0),
    {
        self.nodes.len() == 0
    }

    /// Get a reference to the underlying config.
    pub fn config(&self) -> (config: &HealthCheckConfig)
        ensures
            *config == self@.config,
    {
        &self.config
    }
}

} // verus!
