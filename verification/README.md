# hoorayhug_lb

The failover logic of a load-balancing TCP relay, verified with Verus.

- `src/health.rs` tracks the health of downstream nodes: consecutive failures, exclusion
  for a while, recovery. `src/health_laws.rs` states what holds over several reports.
- `src/failover.rs` decides, attempt by attempt, how to connect to one of several peers.
  `src/failover_laws.rs` states how a whole series of attempts ends.
- `src/latency.rs` watches a relay for its first byte.
- `src/session.rs` orders the steps of one relayed connection and decides what the
  balancer is told of the peer.
- `src/clock.rs` reads the wall clock. It holds the only unverified call.
- `app/` does the I/O: sockets, timers, and a tracker behind a mutex that endpoints share.
