use std::time::{Duration, Instant};

use dynamo_llm::health::{
    latency_buckets_millis, probe_once, CircuitBreaker, CircuitState, HealthMetric, ProbeOutcome,
    HEALTH_PROBE_TIMEOUT_SECS,
};
use prometheus::{IntGauge, Opts, Registry};

/// Lets this much time pass.
fn wait(time: Duration) {
    let start = Instant::now();
    while start.elapsed() < time {}
}

fn breaker(failure_threshold: u32, recovery_timeout: Duration) -> CircuitBreaker {
    CircuitBreaker::new(failure_threshold, recovery_timeout.as_nanos())
}

fn health_score(cb: &CircuitBreaker) -> f64 {
    let loss = cb.health_loss();
    (1.0 - loss.lost as f64 / loss.of as f64).max(0.0)
}

#[test]
fn test_circuit_breaker_state_transitions() {
    let mut cb = breaker(3, Duration::from_millis(50));

    // Starts closed.
    assert_eq!(cb.state(), CircuitState::Closed);
    assert!(cb.is_available());

    // Record two failures -- still closed (threshold is 3).
    cb.record_failure();
    cb.record_failure();
    assert_eq!(cb.state(), CircuitState::Closed);
    assert!(cb.is_available());

    // Third failure opens the circuit.
    cb.record_failure();
    assert_eq!(cb.state(), CircuitState::Open);
    assert!(!cb.is_available());

    // Wait for recovery timeout to elapse.
    wait(Duration::from_millis(60));

    // Now `is_available` should transition to HalfOpen.
    assert!(cb.is_available());
    assert_eq!(cb.state(), CircuitState::HalfOpen);

    // While half-open, further calls return false (only one probe allowed).
    assert!(!cb.is_available());

    // A success closes the circuit.
    cb.record_success();
    assert_eq!(cb.state(), CircuitState::Closed);
    assert!(cb.is_available());
}

#[test]
fn test_health_score_degradation() {
    let mut cb = breaker(4, Duration::from_secs(30));

    // Fully healthy.
    assert!((health_score(&cb) - 1.0).abs() < f64::EPSILON);

    // One failure -> 0.75
    cb.record_failure();
    assert!((health_score(&cb) - 0.75).abs() < f64::EPSILON);

    // Two failures -> 0.50
    cb.record_failure();
    assert!((health_score(&cb) - 0.50).abs() < f64::EPSILON);

    // Three failures -> 0.25
    cb.record_failure();
    assert!((health_score(&cb) - 0.25).abs() < f64::EPSILON);

    // Fourth failure opens the circuit -> score 0.0
    cb.record_failure();
    assert_eq!(cb.state(), CircuitState::Open);
    assert!((health_score(&cb) - 0.0).abs() < f64::EPSILON);
}

#[test]
fn test_circuit_breaker_recovery() {
    let mut cb = breaker(2, Duration::from_millis(30));

    // Open the circuit.
    cb.record_failure();
    cb.record_failure();
    assert_eq!(cb.state(), CircuitState::Open);

    // Before timeout: still open.
    assert!(!cb.is_available());

    // Wait for recovery timeout.
    wait(Duration::from_millis(40));

    // Transitions to half-open.
    assert!(cb.is_available());
    assert_eq!(cb.state(), CircuitState::HalfOpen);

    // Another failure re-opens.
    cb.record_failure();
    assert_eq!(cb.state(), CircuitState::Open);

    // Wait again, transition to half-open, then succeed.
    wait(Duration::from_millis(40));
    assert!(cb.is_available());
    assert_eq!(cb.state(), CircuitState::HalfOpen);
    cb.record_success();
    assert_eq!(cb.state(), CircuitState::Closed);
    assert_eq!(cb.consecutive_failures(), 0);
}

#[test]
fn test_circuit_breaker_success_resets_failures() {
    let mut cb = breaker(5, Duration::from_secs(30));

    cb.record_failure();
    cb.record_failure();
    assert_eq!(cb.consecutive_failures(), 2);

    cb.record_success();
    assert_eq!(cb.consecutive_failures(), 0);
    assert_eq!(cb.state(), CircuitState::Closed);
}

#[test]
fn test_default_circuit_breaker() {
    let cb = CircuitBreaker::default();
    assert_eq!(cb.state(), CircuitState::Closed);
    assert_eq!(cb.failure_threshold(), 3);
    assert_eq!(cb.recovery_timeout(), Duration::from_secs(30).as_nanos());
}

#[test]
fn an_open_circuit_waits_for_the_recovery_timeout() {
    let mut cb = CircuitBreaker::new(1, 1000);
    cb.record_failure();
    assert!(!cb.is_available_after(999));
    assert_eq!(cb.state(), CircuitState::Open);
    assert!(cb.is_available_after(1000));
    assert_eq!(cb.state(), CircuitState::HalfOpen);
    assert!(!cb.is_available_after(u128::MAX));
    assert_eq!(cb.state(), CircuitState::HalfOpen);
}

#[test]
fn a_long_recovery_timeout_is_kept() {
    let mut cb = CircuitBreaker::new(1, u128::MAX);
    cb.record_failure();
    assert!(!cb.is_available());
    let mut cb = CircuitBreaker::new(1, 0);
    cb.record_failure();
    assert!(cb.is_available());
}

#[test]
fn without_a_threshold_the_first_failure_opens() {
    let mut cb = breaker(0, Duration::from_secs(30));
    assert_eq!(health_score(&cb), 1.0);
    cb.record_success();
    assert_eq!(cb.state(), CircuitState::Closed);
    cb.record_failure();
    assert_eq!(cb.state(), CircuitState::Open);
    assert_eq!(health_score(&cb), 0.0);
}

#[test]
fn a_half_open_circuit_has_a_quarter_of_its_health() {
    let mut cb = CircuitBreaker::new(2, 0);
    cb.record_failure();
    assert_eq!(health_score(&cb), 0.5);
    cb.record_failure();
    assert!(cb.is_available_after(0));
    assert_eq!(health_score(&cb), 0.25);
    cb.record_failure();
    assert_eq!(cb.state(), CircuitState::Open);
    assert_eq!(cb.consecutive_failures(), 3);
    assert_eq!(cb.total_failures(), 3);
    assert_eq!(cb.total_successes(), 0);
}

#[test]
fn a_score_is_that_of_the_ratio() {
    let mut cb = breaker(3, Duration::from_secs(30));
    cb.record_failure();
    assert_eq!(health_score(&cb), 1.0 - 1.0 / 3.0);
    cb.record_failure();
    assert_eq!(health_score(&cb), 1.0 - 2.0 / 3.0);
}

#[test]
fn a_success_status_is_between_200_and_299() {
    assert!(!ProbeOutcome::Answered { status: 199 }.is_healthy());
    assert!(ProbeOutcome::Answered { status: 200 }.is_healthy());
    assert!(ProbeOutcome::Answered { status: 299 }.is_healthy());
    assert!(!ProbeOutcome::Answered { status: 300 }.is_healthy());
    assert!(!ProbeOutcome::Answered { status: 500 }.is_healthy());
    assert!(!ProbeOutcome::Unreachable.is_healthy());
    for status in 100u16..1000 {
        assert_eq!(
            ProbeOutcome::Answered { status }.is_healthy(),
            reqwest::StatusCode::from_u16(status).unwrap().is_success()
        );
    }
}

#[test]
fn three_failed_probes_open_a_default_circuit() {
    let mut cb = CircuitBreaker::default();
    let report = probe_once(&mut cb, ProbeOutcome::Answered { status: 200 }, None, None);
    assert_eq!((report.healthy, report.new_failures), (1, 0));
    assert!(cb.is_available());
    assert_eq!(health_score(&cb), 1.0);
    for _ in 0..2 {
        let report = probe_once(&mut cb, ProbeOutcome::Answered { status: 500 }, None, None);
        assert_eq!((report.healthy, report.new_failures), (0, 1));
    }
    assert!(cb.is_available());
    probe_once(&mut cb, ProbeOutcome::Unreachable, None, None);
    assert!(!cb.is_available());
    assert_eq!(health_score(&cb), 0.0);
    assert_eq!(cb.total_successes(), 1);
    assert_eq!(cb.total_failures(), 3);
}

#[test]
fn percentages_are_reported_only_by_a_healthy_master() {
    let mut cb = CircuitBreaker::default();
    let report = probe_once(&mut cb, ProbeOutcome::Answered { status: 200 }, Some(42), Some(87));
    assert_eq!(report.pool_utilization, Some(42));
    assert_eq!(report.cache_hit_rate, Some(87));
    let report = probe_once(&mut cb, ProbeOutcome::Answered { status: 200 }, None, Some(87));
    assert_eq!((report.healthy, report.pool_utilization), (1, None));
    assert_eq!(report.cache_hit_rate, Some(87));
    let report = probe_once(&mut cb, ProbeOutcome::Answered { status: 503 }, Some(42), Some(87));
    assert_eq!((report.healthy, report.new_failures), (0, 1));
    assert_eq!(report.pool_utilization, None);
    assert_eq!(report.cache_hit_rate, None);
    let report = probe_once(&mut cb, ProbeOutcome::Unreachable, Some(42), Some(87));
    assert_eq!((report.pool_utilization, report.cache_hit_rate), (None, None));
}

#[test]
fn the_timeout_runs_from_the_last_failure() {
    let timeout = Duration::from_millis(300);
    let first = Instant::now();
    let mut cb = breaker(1, timeout);
    cb.record_failure_at(first);
    wait(Duration::from_millis(200));
    // Asking in vain does not start the timeout again.
    assert!(!cb.is_available());
    wait(Duration::from_millis(150));
    assert!(cb.is_available());

    // A later failure does.
    let mut cb = breaker(1, timeout);
    cb.record_failure_at(first);
    cb.record_failure();
    assert!(!cb.is_available());
}

#[test]
fn the_metrics_can_be_registered_together() {
    let registry = Registry::new();
    for metric in [
        HealthMetric::Healthy,
        HealthMetric::LatencySeconds,
        HealthMetric::ProbeFailuresTotal,
        HealthMetric::PoolUtilization,
        HealthMetric::CacheHitRate,
    ] {
        let gauge = IntGauge::with_opts(Opts::new(metric.name(), metric.help())).unwrap();
        registry.register(Box::new(gauge)).unwrap();
    }
    assert_eq!(registry.gather().len(), 5);
    assert_eq!(HealthMetric::Healthy.name(), "mooncake_master_healthy");
    assert_eq!(HealthMetric::LatencySeconds.name(), "mooncake_master_latency_seconds");
    assert_eq!(HealthMetric::ProbeFailuresTotal.name(), "mooncake_probe_failures_total");
    assert_eq!(HealthMetric::PoolUtilization.name(), "mooncake_pool_utilization");
    assert_eq!(HealthMetric::CacheHitRate.name(), "mooncake_cache_hit_rate");
    assert_eq!(
        HealthMetric::Healthy.help(),
        "Whether the Mooncake master is reachable (1 = healthy, 0 = unhealthy)"
    );
}

#[test]
fn the_latency_buckets_are_in_seconds() {
    let seconds: Vec<f64> =
        latency_buckets_millis().iter().map(|millis| *millis as f64 / 1000.0).collect();
    assert_eq!(seconds, vec![0.005, 0.01, 0.025, 0.05, 0.1, 0.25, 0.5, 1.0, 2.5]);
    assert_eq!(HEALTH_PROBE_TIMEOUT_SECS, 3);
}
