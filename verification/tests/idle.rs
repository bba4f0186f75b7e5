use epaper_drivers::idle::{IdlePoller, Poll, IDLE_CHECK_INTERVAL_MS, IDLE_TIMEOUT_MS};
use epaper_drivers::transport::Level;

#[test]
fn constants_of_the_wait() {
    assert_eq!(IDLE_CHECK_INTERVAL_MS, 10);
    assert_eq!(IDLE_TIMEOUT_MS, 6000);
}

#[test]
fn current_generation_is_busy_while_high() {
    let poller = IdlePoller::current_generation();
    assert_eq!(poller.busy_level, Level::High);
    assert_eq!(poller.ceiling_ms, Some(6000));
    assert_eq!(poller.wait_for_idle(Level::High, 0), Poll::Sleep(10));
    assert_eq!(poller.wait_for_idle(Level::Low, 0), Poll::Idle);
}

#[test]
fn legacy_generation_is_busy_while_low() {
    let poller = IdlePoller::legacy_generation();
    assert_eq!(poller.busy_level, Level::Low);
    assert_eq!(poller.ceiling_ms, None);
    assert_eq!(poller.wait_for_idle(Level::Low, 0), Poll::Sleep(10));
    assert_eq!(poller.wait_for_idle(Level::High, 0), Poll::Idle);
}

#[test]
fn ceiling_ends_the_wait_at_six_seconds() {
    let poller = IdlePoller::current_generation();
    assert_eq!(poller.wait_for_idle(Level::High, 5999), Poll::Sleep(10));
    assert_eq!(poller.wait_for_idle(Level::High, 6000), Poll::Idle);
    assert_eq!(poller.wait_for_idle(Level::High, 6001), Poll::Idle);
    assert_eq!(poller.wait_for_idle(Level::High, u64::MAX), Poll::Idle);
}

#[test]
fn legacy_wait_has_no_ceiling() {
    let poller = IdlePoller::legacy_generation();
    assert_eq!(poller.wait_for_idle(Level::Low, 6000), Poll::Sleep(10));
    assert_eq!(poller.wait_for_idle(Level::Low, u64::MAX), Poll::Sleep(10));
}

fn wait_on(poller: &IdlePoller, line_at: impl Fn(u64) -> Level, give_up_ms: u64) -> Option<u64> {
    let mut clock = 0u64;
    while clock <= give_up_ms {
        match poller.wait_for_idle(line_at(clock), clock) {
            Poll::Idle => return Some(clock),
            Poll::Sleep(ms) => clock += ms,
        }
    }
    None
}

#[test]
fn a_line_that_never_reports_ready_is_given_up_on() {
    let poller = IdlePoller::current_generation();
    let waited = wait_on(&poller, |_| Level::High, 60_000);
    assert_eq!(waited, Some(6000));
    assert!(waited.unwrap() >= IDLE_TIMEOUT_MS);
}

#[test]
fn a_line_that_reports_ready_ends_the_wait_early() {
    let poller = IdlePoller::current_generation();
    let waited = wait_on(&poller, |clock| if clock < 120 { Level::High } else { Level::Low }, 60_000);
    assert_eq!(waited, Some(120));
    assert_eq!(wait_on(&poller, |_| Level::Low, 60_000), Some(0));
}

#[test]
fn a_legacy_line_is_waited_for_without_end() {
    let poller = IdlePoller::legacy_generation();
    assert_eq!(wait_on(&poller, |_| Level::Low, 60_000), None);
    let waited = wait_on(&poller, |clock| if clock < 7000 { Level::Low } else { Level::High }, 60_000);
    assert_eq!(waited, Some(7000));
}
