use vstd::prelude::*;
use std::sync::Arc;
use std::time::Duration;

verus! {

/// A governor token bucket: a direct, in-memory limiter on the monotonic
/// `Instant` clock, shared by reference counting.
#[verifier::external_body]
pub struct GovernorHandle {
    inner: Arc<
        governor::RateLimiter<
            governor::state::NotKeyed,
            governor::state::InMemoryState,
            governor::clock::MonotonicClock,
            governor::middleware::NoOpMiddleware<std::time::Instant>,
        >,
    >,
}

/// A token bucket of capacity one together with its replenish period in
/// nanoseconds.
pub struct Bucket {
    handle: GovernorHandle,
    period: Ghost<nat>,
}

impl Bucket {
    /// Nanoseconds between two permits.
    pub closed spec fn period(&self) -> nat {
        self.period@
    }
}

/// Relies on governor's `Quota::with_period` and
/// `RateLimiter::direct_with_clock`: a fresh in-memory bucket of burst one
/// that replenishes one cell per `interval_ns` nanoseconds, timed by the
/// `Instant` clock. `with_period` returns `None` only for a zero period,
/// which `requires` rules out.
#[verifier::external_body]
fn new_bucket(interval_ns: u64) -> (r: Bucket)
    requires
        interval_ns > 0,
    ensures
        r.period() == interval_ns,
{
    let quota = governor::Quota::with_period(Duration::from_nanos(interval_ns)).unwrap();
    let clock = governor::clock::MonotonicClock::default();
    Bucket {
        handle: GovernorHandle { inner: Arc::new(governor::RateLimiter::direct_with_clock(quota, &clock)) },
        period: Ghost(interval_ns as nat),
    }
}

/// Relies on governor's `RateLimiter::check` and `NotUntil::wait_time_from`:
/// takes a cell if one is available, else reports in nanoseconds how long
/// until the next one would be. With a burst of one the bucket's slack is
/// one period, so a reported wait never exceeds the period. Whether a cell
/// is granted depends on the clock and on every other holder of the
/// bucket.
#[verifier::external_body]
fn check_bucket(b: &Bucket) -> (r: Result<(), u64>)
    ensures
        r matches Err(w) ==> w <= b.period(),
{
    match b.handle.inner.check() {
        Ok(_) => Ok(()),
        Err(not_until) => Err(not_until.wait_time_from(
            governor::clock::Clock::now(&governor::clock::MonotonicClock::default()),
        ).as_nanos() as u64),
    }
}

/// Relies on `Arc::clone`: a second handle to the same bucket, with the
/// same period.
#[verifier::external_body]
fn share_bucket(b: &Bucket) -> (r: Bucket)
    ensures
        r.period() == b.period(),
{
    Bucket { handle: GovernorHandle { inner: Arc::clone(&b.handle.inner) }, period: Ghost(b.period@) }
}

/// Nanoseconds in a thousand seconds: a rate in milli-requests per second
/// divides it to give the interval between permits.
pub const NANOS_PER_KILOSECOND: u64 = 1_000_000_000_000;

/// Interval between permits, in nanoseconds, for a rate of
/// `millirequests_per_second / 1000` requests per second: `1/R` seconds,
/// rounded up so that the limiter never admits more than R per second.
pub open spec fn interval_ns_spec(millirequests_per_second: nat) -> nat {
    ((NANOS_PER_KILOSECOND as int + millirequests_per_second - 1) / millirequests_per_second as int) as nat
}

/// The interval between permits for a rate given in milli-requests per
/// second (2000 for 2 req/s, 500 for one request every two seconds).
pub fn permit_interval_ns(millirequests_per_second: u64) -> (r: u64)
    requires
        millirequests_per_second > 0,
    ensures
        r as nat == interval_ns_spec(millirequests_per_second as nat),
        r > 0,
        r as nat * millirequests_per_second as nat >= NANOS_PER_KILOSECOND as nat,
{
    let q = NANOS_PER_KILOSECOND / millirequests_per_second;
    let m = NANOS_PER_KILOSECOND % millirequests_per_second;
    let r = if m == 0 { q } else { q + 1 };
    proof {
        let k = NANOS_PER_KILOSECOND as int;
        let p = millirequests_per_second as int;
        let qq = q as int;
        let mm = m as int;
        let rr = r as int;
        assert(k == qq * p + mm) by (nonlinear_arith)
            requires qq == k / p, mm == k % p, p > 0;
        assert(rr > 0) by (nonlinear_arith)
            requires k == qq * p + mm, 0 <= mm < p, k > 0, rr == (if mm == 0 { qq } else { qq + 1 }),
                qq >= 0;
        assert((k + p - 1) / p == rr) by (nonlinear_arith)
            requires k == qq * p + mm, 0 <= mm < p, p > 0, rr == (if mm == 0 { qq } else { qq + 1 });
        assert(rr * p >= k) by (nonlinear_arith)
            requires k == qq * p + mm, 0 <= mm < p, p > 0, rr == (if mm == 0 { qq } else { qq + 1 }),
                qq >= 0;
    }
    r
}

/// What `acquire` does after a check of the bucket.
#[derive(Debug, Clone, Copy, PartialEq, Eq, Structural)]
pub enum AcquireStep {
    /// A permit was taken: return to the caller.
    Granted,
    /// No permit yet: sleep exactly this many nanoseconds, then check again.
    Sleep(u64),
}

/// The step of `acquire` that follows a check: granted on success, else a
/// sleep of exactly the reported wait.
pub fn acquire_step(check: Result<(), u64>) -> (r: AcquireStep)
    ensures
        check is Ok ==> r == AcquireStep::Granted,
        check matches Err(w) ==> r == AcquireStep::Sleep(w),
{
    match check {
        Ok(()) => AcquireStep::Granted,
        Err(w) => AcquireStep::Sleep(w),
    }
}

/// A named token-bucket throttle. Clones share one bucket.
pub struct RateLimiter {
    bucket: Bucket,
    name: String,
    millirequests_per_second: u64,
    interval_ns: u64,
}

impl RateLimiter {
    pub closed spec fn name_spec(&self) -> Seq<char> {
        self.name@
    }

    pub closed spec fn rate_spec(&self) -> nat {
        self.millirequests_per_second as nat
    }

    pub closed spec fn interval_spec(&self) -> nat {
        self.interval_ns as nat
    }

    /// The bucket replenishes one permit per interval.
    pub closed spec fn wf(&self) -> bool {
        self.bucket.period() == self.interval_ns && self.interval_ns > 0
    }

    /// A limiter named `name` admitting `millirequests_per_second / 1000`
    /// requests per second on average, one permit per interval.
    pub fn new(name: &str, millirequests_per_second: u64) -> (r: Self)
        requires
            millirequests_per_second > 0,
        ensures
            r.wf(),
            r.name_spec() == name@,
            r.rate_spec() == millirequests_per_second,
            r.interval_spec() == interval_ns_spec(millirequests_per_second as nat),
    {
        let interval_ns = permit_interval_ns(millirequests_per_second);
        RateLimiter {
            bucket: new_bucket(interval_ns),
            name: name.to_owned(),
            millirequests_per_second,
            interval_ns,
        }
    }

    /// Takes a permit without waiting, or reports in nanoseconds how long
    /// until the next one would be available: never more than one interval.
    pub fn try_acquire(&self) -> (r: Result<(), u64>)
        requires
            self.wf(),
        ensures
            r matches Err(w) ==> w <= self.interval_spec(),
    {
        check_bucket(&self.bucket)
    }

    /// The step of `acquire` after one check: granted, or a sleep of the
    /// reported wait, which is at most one interval.
    pub fn acquire_once(&self) -> (r: AcquireStep)
        requires
            self.wf(),
        ensures
            r matches AcquireStep::Sleep(w) ==> w <= self.interval_spec(),
    {
        acquire_step(self.try_acquire())
    }

    /// The limiter's name.
    pub fn name(&self) -> (r: &str)
        ensures
            r@ == self.name_spec(),
    {
        self.name.as_str()
    }

    /// The configured rate, in milli-requests per second.
    pub fn millirequests_per_second(&self) -> (r: u64)
        ensures
            r as nat == self.rate_spec(),
    {
        self.millirequests_per_second
    }

    /// The interval between permits, in nanoseconds.
    pub fn interval_ns(&self) -> (r: u64)
        ensures
            r as nat == self.interval_spec(),
    {
        self.interval_ns
    }
}

impl Clone for RateLimiter {
    /// Another handle on the same bucket.
    fn clone(&self) -> (r: Self)
        ensures
            self.wf() ==> r.wf(),
            r.name_spec() == self.name_spec(),
            r.rate_spec() == self.rate_spec(),
            r.interval_spec() == self.interval_spec(),
    {
        RateLimiter {
            bucket: share_bucket(&self.bucket),
            name: self.name.clone(),
            millirequests_per_second: self.millirequests_per_second,
            interval_ns: self.interval_ns,
        }
    }
}

} // verus!
