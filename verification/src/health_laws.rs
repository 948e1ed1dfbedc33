use vstd::prelude::*;

use crate::health::{DownstreamHealth, DownstreamNode, HealthState};
use crate::HealthCheckConfig;

verus! {

/// The state once failures of `idx` have been reported at each of `times`, in order.
pub open spec fn after_failures(state: HealthState, idx: int, times: Seq<u32>) -> HealthState
    decreases times.len(),
{
    if times.len() == 0 {
        state
    } else {
        after_failures(state, idx, times.drop_last()).after_failure(idx, times.last())
    }
}

/// A timeout is pending only for nodes that are over the failure limit.
pub open spec fn timeouts_over_limit(state: HealthState) -> bool {
    forall|i: int|
        0 <= i < state.nodes.len() && (#[trigger] state.nodes[i]).checked != 0
            ==> state.nodes[i].fails >= state.config.max_fails
}

/// A new tracker has as many nodes as were asked for, without failures and without
/// pending timeouts, and the configuration that was given.
pub proof fn law_new_tracker(count: nat, config: HealthCheckConfig, idx: int)
    ensures
        HealthState::fresh(count, config).nodes.len() == count,
        HealthState::fresh(count, config).config == config,
        0 <= idx < count ==> {
            &&& HealthState::fresh(count, config).nodes[idx].fails == 0
            &&& HealthState::fresh(count, config).nodes[idx].checked == 0
        },
{
}

/// A new tracker tells the size and the configuration that it was made with, and is empty
/// if and only if the size is zero.
pub proof fn law_new_tracker_tells_its_setup(
    count: usize,
    config: HealthCheckConfig,
    health: DownstreamHealth,
    len: usize,
    empty: bool,
    told: &HealthCheckConfig,
)
    requires
        call_ensures(DownstreamHealth::new, (count, config), health),
        call_ensures(DownstreamHealth::len, (&health,), len),
        call_ensures(DownstreamHealth::is_empty, (&health,), empty),
        call_ensures(DownstreamHealth::config, (&health,), told),
    ensures
        len == count,
        empty <==> count == 0,
        *told == config,
{
}

/// A node is healthy at time `now` if and only if it has failed fewer times in a row than
/// the configured maximum, or has no timeout pending, or `now` has reached the timeout.
pub proof fn law_what_healthy_means(state: HealthState, idx: int, now: u32)
    ensures
        state.healthy(idx, now) <==> 0 <= idx < state.nodes.len() && (state.nodes[idx].fails
            < state.config.max_fails || state.nodes[idx].checked == 0 || now
            >= state.nodes[idx].checked),
{
}

/// A look-up clears the failures and the timeout of a node that has reached the maximum
/// of failures and whose timeout, if one is pending, is over; any other node it leaves as
/// it was.
pub proof fn law_lookup_recovers(state: HealthState, idx: int, now: u32)
    requires
        0 <= idx < state.nodes.len(),
    ensures
        ({
            let before = state.nodes[idx];
            let after = state.after_lookup(idx, now).nodes[idx];
            let recovers = before.fails >= state.config.max_fails && (before.checked == 0 || now
                >= before.checked);
            &&& recovers ==> after.fails == 0 && after.checked == 0
            &&& !recovers ==> after.fails == before.fails && after.checked == before.checked
        }),
{
}

/// A success clears the failures and the timeout of the node.
pub proof fn law_success_clears(state: HealthState, idx: int)
    requires
        0 <= idx < state.nodes.len(),
    ensures
        state.after_success(idx).nodes[idx].fails == 0,
        state.after_success(idx).nodes[idx].checked == 0,
{
}

/// A failure at time `now` adds one to the failures of the node, and a full counter starts
/// again at zero. If the count has then reached the maximum, the node's timeout is set to
/// the configured number of seconds after `now`, or to the last 32-bit time stamp where it
/// would lie past it; else the timeout stays.
pub proof fn law_failure_counts_one(state: HealthState, idx: int, now: u32)
    requires
        0 <= idx < state.nodes.len(),
    ensures
        ({
            let before = state.nodes[idx];
            let after = state.after_failure(idx, now).nodes[idx];
            let end = now + state.config.fail_timeout_secs;
            &&& before.fails < u32::MAX ==> after.fails == before.fails + 1
            &&& before.fails == u32::MAX ==> after.fails == 0
            &&& after.fails < state.config.max_fails ==> after.checked == before.checked
            &&& after.fails >= state.config.max_fails && end <= u32::MAX ==> after.checked == end
            &&& after.fails >= state.config.max_fails && end > u32::MAX ==> after.checked
                == u32::MAX
        }),
{
}

/// A failure at time `now` is a transition if and only if the node was in use until then
/// (few enough failures, no timeout, or one that is over) and the failure brings the count
/// to the maximum.
pub proof fn law_what_a_transition_is(state: HealthState, idx: int, now: u32)
    ensures
        state.trips(idx, now) <==> {
            let node = state.nodes[idx];
            &&& 0 <= idx < state.nodes.len()
            &&& node.fails < state.config.max_fails || node.checked == 0 || now >= node.checked
            &&& (if node.fails < u32::MAX {
                node.fails + 1
            } else {
                0
            }) >= state.config.max_fails
        },
{
}

/// Every node of a new tracker is healthy at every time, whatever the configuration.
pub proof fn law_new_nodes_are_healthy(
    count: nat,
    config: HealthCheckConfig,
    idx: int,
    now: u32,
)
    ensures
        HealthState::fresh(count, config).healthy(idx, now) <==> 0 <= idx < count,
{
}

/// An index out of range is never healthy, and operations on it change nothing.
pub proof fn law_out_of_range_is_unhealthy(state: HealthState, idx: int, now: u32)
    requires
        !(0 <= idx < state.nodes.len()),
    ensures
        !state.healthy(idx, now),
        !state.trips(idx, now),
        state.after_lookup(idx, now) == state,
        state.after_success(idx) == state,
        state.after_failure(idx, now) == state,
{
}

/// An operation on one node leaves the others, their number and the configuration as
/// they were, so that the health of the others stays the same at every time.
pub proof fn law_other_nodes_unaffected(
    state: HealthState,
    idx: int,
    other: int,
    now: u32,
    later: u32,
)
    requires
        idx != other,
    ensures
        state.after_lookup(idx, now).healthy(other, later) == state.healthy(other, later),
        state.after_success(idx).healthy(other, later) == state.healthy(other, later),
        state.after_failure(idx, now).healthy(other, later) == state.healthy(other, later),
        0 <= other < state.nodes.len() ==> {
            &&& state.after_lookup(idx, now).nodes[other] == state.nodes[other]
            &&& state.after_success(idx).nodes[other] == state.nodes[other]
            &&& state.after_failure(idx, now).nodes[other] == state.nodes[other]
        },
        state.after_lookup(idx, now).nodes.len() == state.nodes.len(),
        state.after_success(idx).nodes.len() == state.nodes.len(),
        state.after_failure(idx, now).nodes.len() == state.nodes.len(),
        state.after_lookup(idx, now).config == state.config,
        state.after_success(idx).config == state.config,
        state.after_failure(idx, now).config == state.config,
{
}

/// A reported success makes the node healthy at every time and undoes whatever
/// failures came before it.
pub proof fn law_success_resets(state: HealthState, idx: int, times: Seq<u32>, now: u32)
    requires
        0 <= idx < state.nodes.len(),
    ensures
        state.after_success(idx).healthy(idx, now),
        state.after_success(idx).nodes[idx] == (DownstreamNode { fails: 0, checked: 0 }),
        after_failures(state, idx, times).after_success(idx) == state.after_success(idx),
    decreases times.len(),
{
    if times.len() > 0 {
        let before = after_failures(state, idx, times.drop_last());
        law_success_resets(state, idx, times.drop_last(), now);
        lemma_failures_keep_shape(state, idx, times.drop_last());
        assert(before.after_failure(idx, times.last()).after_success(idx)
            =~~= before.after_success(idx));
    }
}

proof fn lemma_failures_keep_shape(state: HealthState, idx: int, times: Seq<u32>)
    ensures
        after_failures(state, idx, times).nodes.len() == state.nodes.len(),
        after_failures(state, idx, times).config == state.config,
    decreases times.len(),
{
    if times.len() > 0 {
        lemma_failures_keep_shape(state, idx, times.drop_last());
    }
}

/// Fewer consecutive failures than the limit leave a clean node healthy at every time,
/// with exactly that many failures counted, and the next failure takes it from healthy
/// to unhealthy if and only if it is the one that reaches the limit.
pub proof fn law_failure_threshold(
    state: HealthState,
    idx: int,
    times: Seq<u32>,
    now: u32,
)
    requires
        0 <= idx < state.nodes.len(),
        state.nodes[idx] == (DownstreamNode { fails: 0, checked: 0 }),
        times.len() < state.config.max_fails,
    ensures
        after_failures(state, idx, times).healthy(idx, now),
        after_failures(state, idx, times).nodes[idx] == (DownstreamNode {
            fails: times.len() as u32,
            checked: 0,
        }),
        after_failures(state, idx, times).trips(idx, now) <==> times.len() + 1
            == state.config.max_fails,
    decreases times.len(),
{
    lemma_failures_keep_shape(state, idx, times);
    if times.len() > 0 {
        law_failure_threshold(state, idx, times.drop_last(), now);
        lemma_failures_keep_shape(state, idx, times.drop_last());
    }
}

/// A failure that leaves a node over the limit excludes it for exactly the configured
/// time: until then it is unhealthy and a look-up changes nothing; from then on it is
/// healthy, and a look-up gives it a clean start. An exclusion that would outlast the
/// 32-bit time stamps ends at the last of them.
pub proof fn law_excluded_until_timeout(state: HealthState, idx: int, now: u32, later: u32)
    requires
        0 <= idx < state.nodes.len(),
        state.after_failure(idx, now).nodes[idx].fails >= state.config.max_fails,
    ensures
        ({
            let failed = state.after_failure(idx, now);
            let over = later >= now + state.config.fail_timeout_secs || later == u32::MAX;
            &&& failed.healthy(idx, later) <==> over
            &&& !over ==> failed.after_lookup(idx, later) == failed
            &&& over ==> failed.after_lookup(idx, later) == state.after_success(idx)
        }),
{
    let failed = state.after_failure(idx, now);
    if failed.healthy(idx, later) {
        assert(failed.after_lookup(idx, later) =~~= state.after_success(idx));
    } else {
        assert(failed.after_lookup(idx, later) =~~= failed);
    }
}

/// However long the timeout, an excluded node is not healthy before it is over. The last
/// 32-bit time stamp, at which every exclusion ends, is left out.
pub proof fn law_never_recovers_early(state: HealthState, idx: int, now: u32, later: u32)
    requires
        0 <= idx < state.nodes.len(),
        state.after_failure(idx, now).nodes[idx].fails >= state.config.max_fails,
        later < u32::MAX,
        later < now + state.config.fail_timeout_secs,
    ensures
        !state.after_failure(idx, now).healthy(idx, later),
{
}

/// A failure is reported as a transition if and only if the node was healthy just
/// before it and is unhealthy just after it. A timeout of zero excludes nobody, and is
/// left out, as is a failure at the last 32-bit time stamp.
pub proof fn law_transition_is_healthy_to_unhealthy(state: HealthState, idx: int, now: u32)
    requires
        0 < state.config.fail_timeout_secs,
        now < u32::MAX,
    ensures
        state.trips(idx, now) <==> state.healthy(idx, now) && !state.after_failure(
            idx,
            now,
        ).healthy(idx, now),
{
}

/// While a node is excluded, further failures are no transitions, and each puts the end
/// of the exclusion off to a full timeout after it, or to the last 32-bit time stamp. A
/// failure count that wraps around is left out.
pub proof fn law_failures_while_excluded(state: HealthState, idx: int, now: u32, later: u32)
    requires
        0 <= idx < state.nodes.len(),
        !state.healthy(idx, now),
        state.nodes[idx].fails < u32::MAX,
    ensures
        !state.trips(idx, now),
        state.after_failure(idx, now).healthy(idx, later) <==> later >= now
            + state.config.fail_timeout_secs || later == u32::MAX,
{
    law_excluded_until_timeout(state, idx, now, later);
}

/// A node that is healthy stays so as time passes, until a failure is reported.
pub proof fn law_health_lasts(state: HealthState, idx: int, now: u32, later: u32)
    requires
        state.healthy(idx, now),
        now <= later,
    ensures
        state.healthy(idx, later),
{
}

/// A look-up that finds a node healthy leaves it healthy at every time; one that finds
/// it unhealthy changes nothing; and a second look-up at the same time changes nothing.
pub proof fn law_lookup_is_stable(state: HealthState, idx: int, now: u32, any: u32)
    ensures
        state.healthy(idx, now) ==> state.after_lookup(idx, now).healthy(idx, any),
        !state.healthy(idx, now) ==> state.after_lookup(idx, now) == state,
        state.after_lookup(idx, now).after_lookup(idx, now) == state.after_lookup(idx, now),
{
    let once = state.after_lookup(idx, now);
    if !state.healthy(idx, now) {
        assert(once =~~= state);
    }
    assert(once.after_lookup(idx, now) =~~= once);
}

/// A node without a pending timeout is healthy at every time.
pub proof fn law_no_timeout_means_healthy(state: HealthState, idx: int, now: u32)
    requires
        0 <= idx < state.nodes.len(),
        state.nodes[idx].checked == 0,
    ensures
        state.healthy(idx, now),
{
}

/// Only nodes over the limit ever have a timeout pending: it holds of a new tracker and
/// every operation keeps it, a failure count that wraps around left out.
pub proof fn law_timeouts_stay_over_limit(
    count: nat,
    state: HealthState,
    idx: int,
    now: u32,
)
    requires
        timeouts_over_limit(state),
    ensures
        timeouts_over_limit(HealthState::fresh(count, state.config)),
        timeouts_over_limit(state.after_lookup(idx, now)),
        timeouts_over_limit(state.after_success(idx)),
        (0 <= idx < state.nodes.len() ==> state.nodes[idx].fails < u32::MAX) ==> timeouts_over_limit(
            state.after_failure(idx, now),
        ),
{
}

} // verus!
