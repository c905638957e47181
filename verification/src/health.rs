//! The health of the Mooncake master: a circuit breaker, what a probe does to it,
//! and the metrics that a probe reports.
//!
//! The circuit is closed while the master is healthy. It opens when as many probes
//! in a row have failed as the threshold says. When the recovery timeout has passed
//! since the last failure, one request is let through and the circuit is half open.
//! The next probe then closes it or opens it again.
use std::time::Instant;
use vstd::prelude::*;

verus! {

/// `std::time::Instant`, a point in time on a monotonic clock.
#[verifier::external_type_specification]
#[verifier::external_body]
pub struct ExInstant(std::time::Instant);

/// `std::time::Instant::now`, the current time. Nothing is claimed of it, as it
/// rests on the clock.
pub assume_specification[ std::time::Instant::now ]() -> (now: Instant);

/// The nanoseconds since a point in time, from `std::time::Instant::elapsed`.
/// Nothing is claimed of the result, which rests on the clock.
#[verifier::external_body]
fn nanos_since(instant: &Instant) -> (nanos: u128) {
    instant.elapsed().as_nanos()
}

/// Whether the clock can say, when it is asked, that so many nanoseconds have
/// passed since a point in time.
pub closed spec fn passed_since(instant: Instant, nanos: u128) -> bool {
    call_ensures(nanos_since, (&instant,), nanos)
}

/// Whether the clock can say, when it is asked, that it is this point in time now.
pub open spec fn is_now(instant: Instant) -> bool {
    call_ensures(Instant::now, (), instant)
}

/// Possible states for the circuit breaker.
#[derive(Debug, Clone, Copy, PartialEq, Eq, Structural)]
pub enum CircuitState {
    /// Healthy: requests flow normally.
    Closed,
    /// Unhealthy: requests are short-circuited.
    Open,
    /// Testing recovery: a single probe is allowed through.
    HalfOpen,
}

/// The failure threshold of a default circuit breaker.
pub const DEFAULT_FAILURE_THRESHOLD: u32 = 3;

/// The recovery timeout of a default circuit breaker, 30 seconds in nanoseconds.
pub const DEFAULT_RECOVERY_TIMEOUT: u128 = 30_000_000_000;

/// How far the health is from full: `lost` parts `of` so many.
#[derive(Debug, Clone, Copy, PartialEq, Eq, Structural)]
pub struct HealthLoss {
    pub lost: u32,
    pub of: u32,
}

/// What there is to know of a circuit breaker. Times are in nanoseconds.
pub struct BreakerView {
    pub state: CircuitState,
    pub consecutive_failures: u32,
    pub failure_threshold: u32,
    pub recovery_timeout: u128,
    /// When the last failure was recorded, if there was one.
    pub last_failure: Option<Instant>,
    pub total_successes: u64,
    pub total_failures: u64,
}

impl BreakerView {
    /// What holds of every circuit breaker.
    pub open spec fn wf(self) -> bool {
        &&& self.consecutive_failures <= self.total_failures
        &&& self.last_failure is Some <==> self.total_failures > 0
        &&& self.state == CircuitState::Closed ==> self.consecutive_failures == 0
            || self.consecutive_failures < self.failure_threshold
        &&& self.state != CircuitState::Closed ==> self.consecutive_failures > 0
            && self.consecutive_failures >= self.failure_threshold
    }

    /// Whether a request should be attempted when this much time has passed since
    /// the last failure.
    pub open spec fn available(self, elapsed: u128) -> bool {
        match self.state {
            CircuitState::Closed => true,
            CircuitState::Open => elapsed >= self.recovery_timeout,
            CircuitState::HalfOpen => false,
        }
    }

    /// After it was asked whether a request should be attempted.
    pub open spec fn after_asking(self, elapsed: u128) -> BreakerView {
        if self.state == CircuitState::Open && self.available(elapsed) {
            BreakerView { state: CircuitState::HalfOpen, ..self }
        } else {
            self
        }
    }

    /// After a successful probe.
    pub open spec fn succeeded(self) -> BreakerView {
        BreakerView {
            state: CircuitState::Closed,
            consecutive_failures: 0,
            total_successes: (self.total_successes + 1) as u64,
            ..self
        }
    }

    /// After a failed probe, which is recorded at this time.
    pub open spec fn failed(self, now: Instant) -> BreakerView {
        BreakerView {
            state: if self.consecutive_failures + 1 >= self.failure_threshold {
                CircuitState::Open
            } else {
                self.state
            },
            consecutive_failures: (self.consecutive_failures + 1) as u32,
            last_failure: Some(now),
            total_failures: (self.total_failures + 1) as u64,
            ..self
        }
    }

    /// Whether the counters have room for a successful probe.
    pub open spec fn can_succeed(self) -> bool {
        self.total_successes < u64::MAX
    }

    /// Whether the counters have room for a failed probe.
    pub open spec fn can_fail(self) -> bool {
        self.consecutive_failures < u32::MAX && self.total_failures < u64::MAX
    }

    /// How far the health is from full: while the circuit is closed it degrades
    /// linearly as failures approach the threshold, a quarter is left while it is
    /// half open, and nothing while it is open.
    pub open spec fn health_loss(self) -> HealthLoss {
        match self.state {
            CircuitState::Closed => if self.failure_threshold == 0 {
                HealthLoss { lost: 0, of: 1 }
            } else {
                HealthLoss { lost: self.consecutive_failures, of: self.failure_threshold }
            },
            CircuitState::HalfOpen => HealthLoss { lost: 3, of: 4 },
            CircuitState::Open => HealthLoss { lost: 1, of: 1 },
        }
    }
}

/// A simple consecutive-failure circuit breaker.
#[derive(Debug)]
pub struct CircuitBreaker {
    state: CircuitState,
    consecutive_failures: u32,
    failure_threshold: u32,
    recovery_timeout: u128,
    last_failure_time: Option<Instant>,
    total_successes: u64,
    total_failures: u64,
}

impl View for CircuitBreaker {
    type V = BreakerView;

    closed spec fn view(&self) -> BreakerView {
        BreakerView {
            state: self.state,
            consecutive_failures: self.consecutive_failures,
            failure_threshold: self.failure_threshold,
            recovery_timeout: self.recovery_timeout,
            last_failure: self.last_failure_time,
            total_successes: self.total_successes,
            total_failures: self.total_failures,
        }
    }
}

impl CircuitBreaker {
    #[verifier::type_invariant]
    spec fn well_formed(self) -> bool {
        self@.wf()
    }

    /// Create a new circuit breaker in the [`CircuitState::Closed`] state. The
    /// recovery timeout is in nanoseconds.
    pub fn new(failure_threshold: u32, recovery_timeout: u128) -> (breaker: Self)
        ensures
            breaker@ == (BreakerView {
                state: CircuitState::Closed,
                consecutive_failures: 0,
                failure_threshold,
                recovery_timeout,
                last_failure: None,
                total_successes: 0,
                total_failures: 0,
            }),
    {
        CircuitBreaker {
            state: CircuitState::Closed,
            consecutive_failures: 0,
            failure_threshold,
            recovery_timeout,
            last_failure_time: None,
            total_successes: 0,
            total_failures: 0,
        }
    }

    /// Returns `true` when requests should be attempted, where `elapsed`
    /// nanoseconds have passed since the last failure.
    ///
    /// - [`CircuitState::Closed`]: always available.
    /// - [`CircuitState::Open`]: available only after the recovery timeout (and
    ///   then [`CircuitState::HalfOpen`]).
    /// - [`CircuitState::HalfOpen`]: not available (one probe is already in
    ///   flight).
    pub fn is_available_after(&mut self, elapsed: u128) -> (available: bool)
        ensures
            available == old(self)@.available(elapsed),
            final(self)@ == old(self)@.after_asking(elapsed),
    {
        proof {
            use_type_invariant(&*self);
        }
        match self.state {
            CircuitState::Closed => true,
            CircuitState::Open => if elapsed >= self.recovery_timeout {
                self.state = CircuitState::HalfOpen;
                true
            } else {
                false
            },
            CircuitState::HalfOpen => false,
        }
    }

    /// Returns `true` when requests should be attempted now. Only while the
    /// circuit is open this depends on how much time has passed since the last
    /// failure, as the clock says.
    pub fn is_available(&mut self) -> (available: bool)
        ensures
            exists|elapsed: u128|
                {
                    &&& old(self)@.last_failure matches Some(failure) ==> passed_since(
                        failure,
                        elapsed,
                    )
                    &&& available == old(self)@.available(elapsed)
                    &&& final(self)@ == #[trigger] old(self)@.after_asking(elapsed)
                },
    {
        let elapsed: u128 = match &self.last_failure_time {
            Some(last_failure) => nanos_since(last_failure),
            None => 0,
        };
        self.is_available_after(elapsed)
    }

    /// Record a successful probe.  Resets the failure count and closes the
    /// circuit.
    pub fn record_success(&mut self)
        requires
            old(self)@.can_succeed(),
        ensures
            final(self)@ == old(self)@.succeeded(),
    {
        proof {
            use_type_invariant(&*self);
        }
        *self =
        CircuitBreaker {
            state: CircuitState::Closed,
            consecutive_failures: 0,
            failure_threshold: self.failure_threshold,
            recovery_timeout: self.recovery_timeout,
            last_failure_time: self.last_failure_time,
            total_successes: self.total_successes + 1,
            total_failures: self.total_failures,
        };
    }

    /// Record a failed probe now.  Increments the failure counter and may open
    /// the circuit.
    pub fn record_failure(&mut self)
        requires
            old(self)@.can_fail(),
        ensures
            exists|now: Instant|
                is_now(now) && final(self)@ == #[trigger] old(self)@.failed(now),
    {
        let now = Instant::now();
        self.record_failure_at(now);
    }

    /// Record a failed probe at this time.
    pub fn record_failure_at(&mut self, now: Instant)
        requires
            old(self)@.can_fail(),
        ensures
            final(self)@ == old(self)@.failed(now),
    {
        proof {
            use_type_invariant(&*self);
        }
        let consecutive_failures: u32 = self.consecutive_failures + 1;
        *self =
        CircuitBreaker {
            state: if consecutive_failures >= self.failure_threshold {
                CircuitState::Open
            } else {
                self.state
            },
            consecutive_failures,
            failure_threshold: self.failure_threshold,
            recovery_timeout: self.recovery_timeout,
            last_failure_time: Some(now),
            total_successes: self.total_successes,
            total_failures: self.total_failures + 1,
        };
    }

    /// Current state of the circuit.
    pub fn state(&self) -> (state: CircuitState)
        ensures
            state == self@.state,
            self@.wf(),
    {
        proof {
            use_type_invariant(self);
        }
        self.state
    }

    /// Number of consecutive failures since the last success.
    pub fn consecutive_failures(&self) -> (failures: u32)
        ensures
            failures == self@.consecutive_failures,
    {
        self.consecutive_failures
    }

    /// Number of consecutive failures that opens the circuit.
    pub fn failure_threshold(&self) -> (threshold: u32)
        ensures
            threshold == self@.failure_threshold,
    {
        self.failure_threshold
    }

    /// Nanoseconds after which an open circuit is tested again.
    pub fn recovery_timeout(&self) -> (timeout: u128)
        ensures
            timeout == self@.recovery_timeout,
    {
        self.recovery_timeout
    }

    /// Number of successful probes so far.
    pub fn total_successes(&self) -> (successes: u64)
        ensures
            successes == self@.total_successes,
    {
        self.total_successes
    }

    /// Number of failed probes so far.
    pub fn total_failures(&self) -> (failures: u64)
        ensures
            failures == self@.total_failures,
    {
        self.total_failures
    }

    /// Return how far the health is from full, based on the circuit state and the
    /// failure history.
    pub fn health_loss(&self) -> (loss: HealthLoss)
        ensures
            loss == self@.health_loss(),
    {
        match self.state {
            CircuitState::Closed => if self.failure_threshold == 0 {
                HealthLoss { lost: 0, of: 1 }
            } else {
                HealthLoss { lost: self.consecutive_failures, of: self.failure_threshold }
            },
            CircuitState::HalfOpen => HealthLoss { lost: 3, of: 4 },
            CircuitState::Open => HealthLoss { lost: 1, of: 1 },
        }
    }
}

impl Default for CircuitBreaker {
    /// Three failures open the circuit, and it is tested again after 30 seconds.
    fn default() -> (breaker: Self)
        ensures
            breaker@ == (BreakerView {
                state: CircuitState::Closed,
                consecutive_failures: 0,
                failure_threshold: DEFAULT_FAILURE_THRESHOLD,
                recovery_timeout: DEFAULT_RECOVERY_TIMEOUT,
                last_failure: None,
                total_successes: 0,
                total_failures: 0,
            }),
    {
        CircuitBreaker::new(DEFAULT_FAILURE_THRESHOLD, DEFAULT_RECOVERY_TIMEOUT)
    }
}

/// How a health probe went.
#[derive(Debug, Clone, Copy, PartialEq, Eq, Structural)]
pub enum ProbeOutcome {
    /// The master answered with this HTTP status.
    Answered { status: u16 },
    /// The request failed.
    Unreachable,
}

impl ProbeOutcome {
    /// Whether the master is healthy: it answered with a success status.
    #[verifier::allow_in_spec]
    pub fn is_healthy(&self) -> bool
        returns
            match *self {
                ProbeOutcome::Answered { status } => 200 <= status && status < 300,
                ProbeOutcome::Unreachable => false,
            },
    {
        match *self {
            ProbeOutcome::Answered { status } => 200 <= status && status < 300,
            ProbeOutcome::Unreachable => false,
        }
    }
}

/// What a probe does to the metrics.
#[derive(Debug, Clone, Copy, PartialEq, Eq, Structural)]
pub struct ProbeReport {
    /// The new value of [`HealthMetric::Healthy`].
    pub healthy: i64,
    /// By how much [`HealthMetric::ProbeFailuresTotal`] grows.
    pub new_failures: u64,
    /// The new value of [`HealthMetric::PoolUtilization`], where it changes.
    pub pool_utilization: Option<i64>,
    /// The new value of [`HealthMetric::CacheHitRate`], where it changes.
    pub cache_hit_rate: Option<i64>,
}

/// Records the outcome of a probe. The two percentages are those that the master
/// answered with; they count only where it is healthy, and a healthy answer
/// without them is healthy all the same.
pub fn probe_once(
    breaker: &mut CircuitBreaker,
    outcome: ProbeOutcome,
    pool_utilization: Option<i64>,
    cache_hit_rate: Option<i64>,
) -> (report: ProbeReport)
    requires
        outcome.is_healthy() ==> old(breaker)@.can_succeed(),
        !outcome.is_healthy() ==> old(breaker)@.can_fail(),
    ensures
        outcome.is_healthy() ==> final(breaker)@ == old(breaker)@.succeeded(),
        !outcome.is_healthy() ==> exists|now: Instant|
            is_now(now) && final(breaker)@ == #[trigger] old(breaker)@.failed(now),
        report == (if outcome.is_healthy() {
            ProbeReport { healthy: 1, new_failures: 0, pool_utilization, cache_hit_rate }
        } else {
            ProbeReport {
                healthy: 0,
                new_failures: 1,
                pool_utilization: None,
                cache_hit_rate: None,
            }
        }),
{
    if outcome.is_healthy() {
        breaker.record_success();
        ProbeReport { healthy: 1, new_failures: 0, pool_utilization, cache_hit_rate }
    } else {
        breaker.record_failure();
        ProbeReport { healthy: 0, new_failures: 1, pool_utilization: None, cache_hit_rate: None }
    }
}

/// Every operation keeps what holds of every circuit breaker.
pub proof fn operations_keep_the_breaker_well_formed(
    breaker: BreakerView,
    elapsed: u128,
    now: Instant,
)
    requires
        breaker.wf(),
    ensures
        breaker.after_asking(elapsed).wf(),
        breaker.can_succeed() ==> breaker.succeeded().wf(),
        breaker.can_fail() ==> breaker.failed(now).wf(),
{
}

/// A breaker after failed probes in a row, which are recorded at these times.
pub open spec fn failed_at(breaker: BreakerView, times: Seq<Instant>) -> BreakerView
    decreases times.len(),
{
    if times.len() == 0 {
        breaker
    } else {
        failed_at(breaker, times.drop_last()).failed(times.last())
    }
}

/// A closed circuit without failures stays closed while fewer probes fail in a row
/// than the threshold says, and is open from then on. The time of the last failure
/// is that of the last of these probes.
pub proof fn consecutive_failures_open_the_circuit(breaker: BreakerView, times: Seq<Instant>)
    requires
        breaker.state == CircuitState::Closed,
        breaker.consecutive_failures == 0,
        times.len() <= u32::MAX,
    ensures
        ({
            let after = failed_at(breaker, times);
            &&& after.failure_threshold == breaker.failure_threshold
            &&& after.recovery_timeout == breaker.recovery_timeout
            &&& after.consecutive_failures == times.len()
            &&& after.state == (if times.len() > 0 && times.len() >= breaker.failure_threshold {
                CircuitState::Open
            } else {
                CircuitState::Closed
            })
            &&& times.len() > 0 ==> after.last_failure == Some(times.last())
        }),
    decreases times.len(),
{
    if times.len() > 0 {
        consecutive_failures_open_the_circuit(breaker, times.drop_last());
    }
}

/// The recovery timeout runs from the last failure: a failed probe sets the time
/// from which it runs, and neither asking nor a success moves that time.
pub proof fn recovery_runs_from_the_last_failure(
    breaker: BreakerView,
    failure: Instant,
    elapsed: u128,
)
    ensures
        breaker.failed(failure).last_failure == Some(failure),
        breaker.after_asking(elapsed).last_failure == breaker.last_failure,
        breaker.succeeded().last_failure == breaker.last_failure,
        breaker.failed(failure).state == CircuitState::Open ==> (breaker.failed(failure).available(
            elapsed,
        ) <==> elapsed >= breaker.recovery_timeout),
{
}

/// An open circuit lets a request through exactly when the recovery timeout has
/// passed, and is then half open; a half-open circuit lets none through, however
/// much time passes.
pub proof fn recovery_lets_one_request_through(breaker: BreakerView, elapsed: u128, later: u128)
    requires
        breaker.state == CircuitState::Open,
    ensures
        breaker.available(elapsed) <==> elapsed >= breaker.recovery_timeout,
        breaker.available(elapsed) ==> breaker.after_asking(elapsed).state
            == CircuitState::HalfOpen,
        !breaker.available(elapsed) ==> breaker.after_asking(elapsed) == breaker,
        breaker.available(elapsed) ==> !breaker.after_asking(elapsed).available(later),
        breaker.available(elapsed) ==> breaker.after_asking(elapsed).after_asking(later)
            == breaker.after_asking(elapsed),
{
}

/// A failed probe opens a half-open circuit again.
pub proof fn failure_reopens_a_half_open_circuit(breaker: BreakerView, now: Instant)
    requires
        breaker.wf(),
        breaker.state == CircuitState::HalfOpen,
        breaker.can_fail(),
    ensures
        breaker.failed(now).state == CircuitState::Open,
{
}

/// A successful probe closes the circuit and forgets the failures, whatever the
/// state was, so that requests flow and the health is full.
pub proof fn success_closes_the_circuit(breaker: BreakerView, elapsed: u128)
    ensures
        breaker.succeeded().state == CircuitState::Closed,
        breaker.succeeded().consecutive_failures == 0,
        breaker.succeeded().available(elapsed),
        breaker.succeeded().health_loss().lost == 0,
{
}

/// Asking whether a request should be attempted does not change a closed circuit.
pub proof fn asking_leaves_a_closed_circuit_alone(breaker: BreakerView, elapsed: u128)
    requires
        breaker.state == CircuitState::Closed,
    ensures
        breaker.available(elapsed),
        breaker.after_asking(elapsed) == breaker,
{
}

/// The health is between nothing and full. It is full exactly while the circuit is
/// closed without recent failures, and nothing exactly while the circuit is open.
pub proof fn health_is_between_nothing_and_full(breaker: BreakerView)
    requires
        breaker.wf(),
    ensures
        breaker.health_loss().of > 0,
        breaker.health_loss().lost <= breaker.health_loss().of,
        breaker.health_loss().lost == 0 <==> breaker.state == CircuitState::Closed
            && breaker.consecutive_failures == 0,
        breaker.health_loss().lost == breaker.health_loss().of <==> breaker.state
            == CircuitState::Open,
{
}

/// A failed probe never improves the health, and a failure on a closed circuit
/// lowers it.
pub proof fn failures_lower_the_health(breaker: BreakerView, now: Instant)
    requires
        breaker.wf(),
        breaker.can_fail(),
    ensures
        ({
            let before = breaker.health_loss();
            let after = breaker.failed(now).health_loss();
            &&& before.lost * after.of <= after.lost * before.of
            &&& breaker.state == CircuitState::Closed ==> before.lost * after.of < after.lost
                * before.of
        }),
{
    let before = breaker.health_loss();
    let after = breaker.failed(now).health_loss();
    if breaker.failed(now).state == CircuitState::Open {
        assert(before.lost * after.of == before.lost && after.lost * before.of == before.of)
            by (nonlinear_arith)
            requires
                after.lost == 1,
                after.of == 1,
        ;
    } else {
        assert(before.lost * after.of < after.lost * before.of) by (nonlinear_arith)
            requires
                before.lost < after.lost,
                after.of == before.of,
                before.of > 0,
        ;
    }
}

/// The metrics of a probe.
#[derive(Debug, Clone, Copy, PartialEq, Eq, Structural)]
pub enum HealthMetric {
    Healthy,
    LatencySeconds,
    ProbeFailuresTotal,
    PoolUtilization,
    CacheHitRate,
}

/// Whether a character can begin the name of a metric.
pub open spec fn begins_metric_name(c: char) -> bool {
    'a' <= c <= 'z' || 'A' <= c <= 'Z' || c == '_' || c == ':'
}

/// Whether a text can be the name of a metric.
pub open spec fn is_metric_name(name: Seq<char>) -> bool {
    &&& name.len() > 0
    &&& begins_metric_name(name[0])
    &&& forall|i: int|
        0 < i < name.len() ==> begins_metric_name(#[trigger] name[i]) || '0' <= name[i] <= '9'
}

impl HealthMetric {
    /// The name under which the metric is registered.
    pub open spec fn name_text(self) -> Seq<char> {
        match self {
            HealthMetric::Healthy => "mooncake_master_healthy"@,
            HealthMetric::LatencySeconds => "mooncake_master_latency_seconds"@,
            HealthMetric::ProbeFailuresTotal => "mooncake_probe_failures_total"@,
            HealthMetric::PoolUtilization => "mooncake_pool_utilization"@,
            HealthMetric::CacheHitRate => "mooncake_cache_hit_rate"@,
        }
    }

    /// What the metric means.
    pub open spec fn help_text(self) -> Seq<char> {
        match self {
            HealthMetric::Healthy => "Whether the Mooncake master is reachable (1 = healthy, 0 = unhealthy)"@,
            HealthMetric::LatencySeconds => "Latency of health probe requests to the Mooncake master"@,
            HealthMetric::ProbeFailuresTotal => "Total number of failed health probe requests to the Mooncake master"@,
            HealthMetric::PoolUtilization => "Mooncake object pool utilization as reported by the master (percentage 0-100)"@,
            HealthMetric::CacheHitRate => "Mooncake cache hit rate as reported by the master (percentage 0-100)"@,
        }
    }

    /// The name under which the metric is registered.
    pub fn name(&self) -> (name: &'static str)
        ensures
            name@ == self.name_text(),
    {
        match self {
            HealthMetric::Healthy => "mooncake_master_healthy",
            HealthMetric::LatencySeconds => "mooncake_master_latency_seconds",
            HealthMetric::ProbeFailuresTotal => "mooncake_probe_failures_total",
            HealthMetric::PoolUtilization => "mooncake_pool_utilization",
            HealthMetric::CacheHitRate => "mooncake_cache_hit_rate",
        }
    }

    /// What the metric means.
    pub fn help(&self) -> (help: &'static str)
        ensures
            help@ == self.help_text(),
    {
        match self {
            HealthMetric::Healthy => "Whether the Mooncake master is reachable (1 = healthy, 0 = unhealthy)",
            HealthMetric::LatencySeconds => "Latency of health probe requests to the Mooncake master",
            HealthMetric::ProbeFailuresTotal => "Total number of failed health probe requests to the Mooncake master",
            HealthMetric::PoolUtilization => "Mooncake object pool utilization as reported by the master (percentage 0-100)",
            HealthMetric::CacheHitRate => "Mooncake cache hit rate as reported by the master (percentage 0-100)",
        }
    }
}

/// Every metric has a valid name and a help text, so it can be created.
pub proof fn metrics_can_be_created(metric: HealthMetric)
    ensures
        is_metric_name(metric.name_text()),
        metric.help_text().len() > 0,
{
    reveal_strlit("mooncake_master_healthy");
    reveal_strlit("mooncake_master_latency_seconds");
    reveal_strlit("mooncake_probe_failures_total");
    reveal_strlit("mooncake_pool_utilization");
    reveal_strlit("mooncake_cache_hit_rate");
    reveal_strlit("Whether the Mooncake master is reachable (1 = healthy, 0 = unhealthy)");
    reveal_strlit("Latency of health probe requests to the Mooncake master");
    reveal_strlit("Total number of failed health probe requests to the Mooncake master");
    reveal_strlit("Mooncake object pool utilization as reported by the master (percentage 0-100)");
    reveal_strlit("Mooncake cache hit rate as reported by the master (percentage 0-100)");
}

/// No two metrics have the same name, so they can be registered together.
pub proof fn metrics_have_different_names(one: HealthMetric, other: HealthMetric)
    requires
        one != other,
    ensures
        one.name_text() != other.name_text(),
{
    reveal_strlit("mooncake_master_healthy");
    reveal_strlit("mooncake_master_latency_seconds");
    reveal_strlit("mooncake_probe_failures_total");
    reveal_strlit("mooncake_pool_utilization");
    reveal_strlit("mooncake_cache_hit_rate");
    assert(one.name_text().len() != other.name_text().len() || one.name_text()[9]
        != other.name_text()[9]);
}

/// The upper bounds of the buckets of [`HealthMetric::LatencySeconds`], in
/// milliseconds.
pub fn latency_buckets_millis() -> (bounds: [u64; 9])
    ensures
        bounds@ == seq![5u64, 10, 25, 50, 100, 250, 500, 1000, 2500],
        forall|i: int, j: int| 0 <= i < j < 9 ==> bounds@[i] < bounds@[j],
{
    [5, 10, 25, 50, 100, 250, 500, 1000, 2500]
}

/// Short HTTP timeout for health probes, to detect outages fast.
pub const HEALTH_PROBE_TIMEOUT_SECS: u64 = 3;

/// Every probe is counted once, as a success or as a failure, and nothing but the
/// breaker's own counters, state and failure time changes.
pub proof fn every_probe_is_counted_once(breaker: BreakerView, now: Instant, elapsed: u128)
    requires
        breaker.can_succeed(),
        breaker.can_fail(),
    ensures
        breaker.succeeded().total_successes == breaker.total_successes + 1,
        breaker.succeeded().total_failures == breaker.total_failures,
        breaker.failed(now).total_failures == breaker.total_failures + 1,
        breaker.failed(now).total_successes == breaker.total_successes,
        breaker.failed(now).consecutive_failures == breaker.consecutive_failures + 1,
        breaker.succeeded().failure_threshold == breaker.failure_threshold,
        breaker.failed(now).failure_threshold == breaker.failure_threshold,
        breaker.succeeded().recovery_timeout == breaker.recovery_timeout,
        breaker.failed(now).recovery_timeout == breaker.recovery_timeout,
        breaker.after_asking(elapsed) == (BreakerView {
            state: breaker.after_asking(elapsed).state,
            ..breaker
        }),
{
}

/// A failed probe opens the circuit exactly when as many have failed in a row as the
/// threshold says; otherwise the state stays.
pub proof fn the_threshold_opens_the_circuit(breaker: BreakerView, now: Instant)
    requires
        breaker.can_fail(),
    ensures
        breaker.consecutive_failures + 1 >= breaker.failure_threshold ==> breaker.failed(now).state
            == CircuitState::Open,
        breaker.consecutive_failures + 1 < breaker.failure_threshold ==> breaker.failed(now).state
            == breaker.state,
{
}

/// The counters have room exactly while none of them is at its limit.
pub proof fn counters_have_room_below_their_limits(breaker: BreakerView)
    ensures
        breaker.can_succeed() <==> breaker.total_successes < u64::MAX,
        breaker.can_fail() <==> breaker.total_failures < u64::MAX && breaker.consecutive_failures
            < u32::MAX,
{
}

/// While the circuit is closed, the share of health that is lost is the share of the
/// threshold that has failed; half open it is three quarters, open it is all.
pub proof fn the_health_falls_linearly(breaker: BreakerView)
    ensures
        breaker.state == CircuitState::Closed && breaker.failure_threshold > 0
            ==> breaker.health_loss().lost * breaker.failure_threshold
            == breaker.consecutive_failures * breaker.health_loss().of,
        breaker.state == CircuitState::Closed && breaker.failure_threshold == 0
            ==> breaker.health_loss().lost == 0,
        breaker.state == CircuitState::HalfOpen ==> breaker.health_loss().lost * 4 == 3
            * breaker.health_loss().of,
        breaker.state == CircuitState::Open ==> breaker.health_loss().lost
            == breaker.health_loss().of,
        breaker.health_loss().of > 0,
{
}

/// The master is healthy exactly when it answers with a status from 200 to 299.
pub proof fn only_success_statuses_are_healthy(status: u16)
    ensures
        (ProbeOutcome::Answered { status }).is_healthy() <==> status / 100 == 2,
        !ProbeOutcome::Unreachable.is_healthy(),
{
}

/// Each metric has its own name and help text.
pub proof fn the_metrics_are_described(metric: HealthMetric)
    ensures
        metric == HealthMetric::Healthy ==> metric.name_text() == "mooncake_master_healthy"@
            && metric.help_text()
            == "Whether the Mooncake master is reachable (1 = healthy, 0 = unhealthy)"@,
        metric == HealthMetric::LatencySeconds ==> metric.name_text()
            == "mooncake_master_latency_seconds"@ && metric.help_text()
            == "Latency of health probe requests to the Mooncake master"@,
        metric == HealthMetric::ProbeFailuresTotal ==> metric.name_text()
            == "mooncake_probe_failures_total"@ && metric.help_text()
            == "Total number of failed health probe requests to the Mooncake master"@,
        metric == HealthMetric::PoolUtilization ==> metric.name_text()
            == "mooncake_pool_utilization"@ && metric.help_text()
            == "Mooncake object pool utilization as reported by the master (percentage 0-100)"@,
        metric == HealthMetric::CacheHitRate ==> metric.name_text() == "mooncake_cache_hit_rate"@
            && metric.help_text()
            == "Mooncake cache hit rate as reported by the master (percentage 0-100)"@,
{
}

/// The present is what the clock says when it is asked.
pub proof fn the_present_is_what_the_clock_says(instant: Instant)
    ensures
        is_now(instant) <==> call_ensures(Instant::now, (), instant),
{
}

} // verus!
