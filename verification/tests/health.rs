use std::time::{Duration, Instant};

use hoorayhug_lb::clock::stamp;
use hoorayhug_lb::health::DownstreamHealth;
use hoorayhug_lb::{latency_limit, HealthCheckConfig};

fn config(max_fails: u32, fail_timeout_secs: u32) -> HealthCheckConfig {
    HealthCheckConfig { max_fails, fail_timeout_secs, max_latency_ms: None }
}

#[test]
fn test_health_default_healthy() {
    let mut h = DownstreamHealth::new(3, HealthCheckConfig::default());
    assert!(h.is_healthy(0));
    assert!(h.is_healthy(1));
    assert!(h.is_healthy(2));
}

#[test]
fn test_health_fail_threshold() {
    let mut h = DownstreamHealth::new(
        2,
        HealthCheckConfig { max_fails: 2, fail_timeout_secs: 3600, ..HealthCheckConfig::default() },
    );

    assert!(!h.report_failure(0)); // fails=1, not yet unhealthy
    assert!(h.is_healthy(0));
    assert!(h.report_failure(0)); // fails=2, now unhealthy
    assert!(!h.is_healthy(0));
    assert!(h.is_healthy(1)); // other node unaffected
}

#[test]
fn test_health_recovery() {
    let mut h = DownstreamHealth::new(
        1,
        HealthCheckConfig { max_fails: 1, fail_timeout_secs: 1, ..HealthCheckConfig::default() },
    );

    h.report_failure(0); // immediately unhealthy
    assert!(!h.is_healthy(0));

    let start = Instant::now();
    while start.elapsed() < Duration::from_secs(2) {}
    assert!(h.is_healthy(0)); // timeout expired, auto-recovered
}

#[test]
fn test_health_success_resets() {
    let mut h = DownstreamHealth::new(
        1,
        HealthCheckConfig { max_fails: 3, fail_timeout_secs: 3600, ..HealthCheckConfig::default() },
    );

    h.report_failure(0); // fails=1
    h.report_success(0); // reset
    assert!(h.is_healthy(0));
}

#[test]
fn test_health_report_failure_return_value() {
    let mut h = DownstreamHealth::new(
        1,
        HealthCheckConfig { max_fails: 2, fail_timeout_secs: 3600, ..HealthCheckConfig::default() },
    );
    assert!(!h.report_failure(0)); // 1/2
    assert!(h.report_failure(0)); // 2/2 -> transitioned
}

#[test]
fn default_config_values() {
    let c = HealthCheckConfig::default();
    assert_eq!(c.max_fails, 2);
    assert_eq!(c.fail_timeout_secs, 120);
    assert_eq!(c.max_latency_ms, None);
    assert_eq!(latency_limit(Some(c)), None);
    assert_eq!(latency_limit(None), None);
    assert_eq!(latency_limit(Some(HealthCheckConfig { max_latency_ms: Some(7), ..c })), Some(7));
}

#[test]
fn size_and_config_are_kept() {
    let mut h = DownstreamHealth::new(2, config(5, 9));
    h.report_failure(1);
    h.report_success(0);
    assert_eq!(h.len(), 2);
    assert!(!h.is_empty());
    assert_eq!(*h.config(), config(5, 9));
    assert!(DownstreamHealth::new(0, config(5, 9)).is_empty());
}

#[test]
fn out_of_range_is_unhealthy() {
    let mut h = DownstreamHealth::new(1, config(1, 10));
    assert!(!h.is_healthy(1));
    assert!(!h.report_failure(1));
    assert!(!h.report_failure_at(usize::MAX, 0));
    h.report_success(1);
    assert!(h.is_healthy(0));
    assert!(!DownstreamHealth::new(0, config(1, 10)).is_healthy_at(0, 5));
}

#[test]
fn excluded_for_exactly_the_timeout() {
    let mut h = DownstreamHealth::new(1, config(1, 10));
    assert!(h.report_failure_at(0, 1000));
    assert!(!h.is_healthy_at(0, 1000));
    assert!(!h.is_healthy_at(0, 1009));
    assert!(h.is_healthy_at(0, 1010));
    // Recovered for good: the past looks healthy too.
    assert!(h.is_healthy_at(0, 1005));
}

#[test]
fn recovery_clears_the_failure_count() {
    let mut h = DownstreamHealth::new(1, config(2, 10));
    assert!(!h.report_failure_at(0, 100));
    assert!(h.report_failure_at(0, 101));
    assert!(h.is_healthy_at(0, 111));
    assert!(!h.report_failure_at(0, 112));
    assert!(h.is_healthy_at(0, 112));
}

#[test]
fn failure_without_recovery_excludes_again() {
    let mut h = DownstreamHealth::new(1, config(2, 10));
    h.report_failure_at(0, 100);
    h.report_failure_at(0, 101);
    // The timeout is over, but nobody has looked: the next failure is a transition.
    assert!(h.report_failure_at(0, 200));
    assert!(!h.is_healthy_at(0, 209));
    assert!(h.is_healthy_at(0, 210));
}

#[test]
fn only_the_crossing_is_a_transition() {
    let mut h = DownstreamHealth::new(1, config(2, 10));
    assert!(!h.report_failure_at(0, 100));
    assert!(h.report_failure_at(0, 101));
    assert!(!h.report_failure_at(0, 105));
    // Each failure puts the end of the exclusion off.
    assert!(!h.is_healthy_at(0, 111));
    assert!(h.is_healthy_at(0, 115));
}

#[test]
fn success_ends_an_exclusion() {
    let mut h = DownstreamHealth::new(2, config(1, 10));
    h.report_failure_at(0, 100);
    h.report_failure_at(1, 100);
    h.report_success(0);
    assert!(h.is_healthy_at(0, 100));
    assert!(!h.is_healthy_at(1, 100));
}

#[test]
fn zero_limit_starts_healthy() {
    let mut h = DownstreamHealth::new(1, config(0, 10));
    assert!(h.is_healthy_at(0, 5));
    assert!(h.report_failure_at(0, 5));
    assert!(!h.is_healthy_at(0, 14));
    assert!(h.is_healthy_at(0, 15));
}

#[test]
fn zero_timeout_excludes_nobody() {
    let mut h = DownstreamHealth::new(1, config(1, 0));
    assert!(h.report_failure_at(0, 50));
    assert!(h.is_healthy_at(0, 50));
}

#[test]
fn long_timeouts_exclude_to_the_last_stamp() {
    let mut h = DownstreamHealth::new(1, config(1, u32::MAX));
    assert!(h.report_failure_at(0, 1000));
    assert!(!h.is_healthy_at(0, 999));
    assert!(!h.is_healthy_at(0, 1000));
    assert!(!h.is_healthy_at(0, u32::MAX - 1));
    assert!(h.is_healthy_at(0, u32::MAX));
}

#[test]
fn late_deadlines_do_not_wrap_around() {
    let mut h = DownstreamHealth::new(1, config(1, 10));
    assert!(h.report_failure_at(0, u32::MAX - 3));
    assert!(!h.is_healthy_at(0, 6));
    assert!(!h.is_healthy_at(0, u32::MAX - 1));
    assert!(h.is_healthy_at(0, u32::MAX));
}

#[test]
fn longest_timeout_excludes_now() {
    let mut h = DownstreamHealth::new(1, config(1, u32::MAX));
    assert!(h.report_failure(0));
    assert!(!h.is_healthy(0));
    assert!(!h.report_failure(0));
    h.report_success(0);
    assert!(h.is_healthy(0));
}

#[test]
fn stamps_of_clock_readings() {
    assert_eq!(stamp(None), 0);
    assert_eq!(stamp(Some(1_700_000_000)), 1_700_000_000);
    assert_eq!(stamp(Some(0x1_0000_0000)), 0);
    assert_eq!(stamp(Some(0x5_0000_0007)), 7);
}

#[test]
fn exclusion_is_counted_from_the_present() {
    // The clock stands far from stamp zero, so that a node excluded at stamp zero has
    // long recovered, and one excluded now has not.
    let mut h = DownstreamHealth::new(2, config(1, 3600));
    assert!(h.report_failure_at(0, 0));
    assert!(h.report_failure(1));
    assert!(h.is_healthy(0));
    assert!(!h.is_healthy(1));
}
