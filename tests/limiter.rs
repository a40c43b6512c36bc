use media_collector::limiter::{acquire_step, permit_interval_ns, AcquireStep, RateLimiter};
use std::time::{Duration, Instant};

/// Acquires a permit the way the service does: on a denial, sleep for
/// exactly the reported wait, then check again.
async fn acquire(l: &RateLimiter) -> u32 {
    let mut sleeps = 0;
    loop {
        match l.acquire_once() {
            AcquireStep::Granted => return sleeps,
            AcquireStep::Sleep(ns) => {
                assert!(ns <= l.interval_ns());
                sleeps += 1;
                tokio::time::sleep(Duration::from_nanos(ns)).await;
            }
        }
    }
}

fn runtime() -> tokio::runtime::Runtime {
    tokio::runtime::Builder::new_current_thread().enable_time().build().unwrap()
}

#[test]
fn three_acquires_at_two_per_second_take_a_second() {
    let l = RateLimiter::new("test", 2000);
    let start = Instant::now();
    runtime().block_on(async {
        for _ in 0..3 {
            acquire(&l).await;
        }
    });
    assert!(start.elapsed() >= Duration::from_millis(1000));
    assert!(start.elapsed() < Duration::from_millis(5000));
}

#[test]
fn clones_share_one_bucket() {
    let l = RateLimiter::new("shared", 1000);
    let c = l.clone();
    assert!(l.try_acquire().is_ok());
    assert!(c.try_acquire().is_err());
    assert_eq!(c.name(), "shared");
    assert_eq!(c.millirequests_per_second(), 1000);
}

#[test]
fn denied_check_reports_wait() {
    let l = RateLimiter::new("slow", 500);
    assert!(l.try_acquire().is_ok());
    match l.try_acquire() {
        Err(w) => assert!(w > 1_000_000_000 && w <= l.interval_ns()),
        Ok(()) => panic!("second permit should be denied"),
    }
}

#[test]
fn permit_intervals() {
    assert_eq!(permit_interval_ns(2000), 500_000_000);
    assert_eq!(permit_interval_ns(3000), 333_333_334);
    assert_eq!(permit_interval_ns(500), 2_000_000_000);
    assert_eq!(permit_interval_ns(1), 1_000_000_000_000);
    assert_eq!(RateLimiter::new("x", 4000).interval_ns(), 250_000_000);
}

#[test]
fn acquire_steps() {
    assert_eq!(acquire_step(Ok(())), AcquireStep::Granted);
    assert_eq!(acquire_step(Err(7_000_000)), AcquireStep::Sleep(7_000_000));
}

#[test]
fn acquire_waits_at_most_one_interval() {
    let l = RateLimiter::new("one", 4000);
    let rt = runtime();
    assert_eq!(rt.block_on(acquire(&l)), 0);
    let start = Instant::now();
    assert!(rt.block_on(acquire(&l)) >= 1);
    assert!(start.elapsed() >= Duration::from_millis(240));
}
