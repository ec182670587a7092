use procjail::WatchdogCancel;
use std::time::{Duration, Instant};

#[test]
fn cancel_sets_flag() {
    let c = WatchdogCancel::new();
    assert!(!c.is_cancelled());
    c.cancel();
    assert!(c.is_cancelled());
}

#[test]
fn wait_returns_true_immediately_when_already_cancelled() {
    let c = WatchdogCancel::new();
    c.cancel();
    let start = Instant::now();
    // A 60s timeout must be short-circuited by the already-set cancel flag.
    assert!(c.wait_until_cancelled_or(Duration::from_secs(60)));
    assert!(start.elapsed() < Duration::from_secs(1), "must not block when already cancelled");
}

#[test]
fn wait_returns_false_on_timeout() {
    let c = WatchdogCancel::new();
    // Short timeout, never cancelled -> returns false (timed out), and the
    // wait actually lasted about that long (a single blocking wait).
    let start = Instant::now();
    assert!(!c.wait_until_cancelled_or(Duration::from_millis(40)));
    assert!(start.elapsed() >= Duration::from_millis(30));
}

#[test]
fn cancelling_twice_keeps_the_flag() {
    let c = WatchdogCancel::new();
    c.cancel();
    c.cancel();
    assert!(c.is_cancelled());
    assert!(c.wait_until_cancelled_or(Duration::from_millis(1)));
}

#[test]
fn still_waiting_is_the_negation() {
    assert!(procjail::watchdog::still_waiting(false));
    assert!(!procjail::watchdog::still_waiting(true));
}
