use clock_floater::countdown::{CountdownEngine, ExpiredEvent};

fn started(total: u64, now: u64) -> CountdownEngine {
    let mut e = CountdownEngine::new();
    e.start(total, now);
    e
}

#[test]
fn new_engine_is_idle_at_zero() {
    let e = CountdownEngine::new();
    assert_eq!(e.remaining, 0);
    assert!(!e.running);
    assert_eq!(e.last_tick, None);
    assert!(!e.alarm_fired);
    assert_eq!(e.formatted_time(), "00:00:00");
}

#[test]
fn start_3661_shows_01_01_01() {
    let e = started(3661, 0);
    assert_eq!(e.formatted_time(), "01:01:01");
}

#[test]
fn start_then_format_matches_hms() {
    for &(s, text) in &[
        (0u64, "00:00:00"),
        (59, "00:00:59"),
        (60, "00:01:00"),
        (3599, "00:59:59"),
        (3600, "01:00:00"),
        (86399, "23:59:59"),
        (359999, "99:59:59"),
        (360000, "100:00:00"),
    ] {
        assert_eq!(started(s, 5).formatted_time(), text);
    }
}

#[test]
fn zero_run_expires_on_first_tick() {
    let mut e = started(0, 1000);
    let ev = e.tick(2000);
    assert_eq!(ev, Some(ExpiredEvent));
    assert_eq!(e.remaining, 0);
    assert!(!e.running);
    assert!(e.alarm_fired);
}

#[test]
fn four_seconds_of_ten_leaves_six() {
    let mut e = started(10, 0);
    let ev = e.tick(4000);
    assert_eq!(ev, None);
    assert_eq!(e.remaining, 6);
    assert!(e.running);
    assert_eq!(e.last_tick, Some(4000));
}

#[test]
fn partial_second_accumulates_until_whole() {
    let mut e = started(10, 0);
    assert_eq!(e.tick(600), None);
    assert_eq!(e.remaining, 10);
    assert_eq!(e.last_tick, Some(0));
    assert_eq!(e.tick(1500), None);
    assert_eq!(e.remaining, 9);
    assert_eq!(e.last_tick, Some(1500));
    // 900 ms since the last decrement: nothing consumed yet
    assert_eq!(e.tick(2400), None);
    assert_eq!(e.remaining, 9);
    // the half second left over at 1500 was dropped, not carried
    assert_eq!(e.tick(2500), None);
    assert_eq!(e.remaining, 8);
}

#[test]
fn clock_going_back_consumes_nothing() {
    let mut e = started(10, 5000);
    assert_eq!(e.tick(1000), None);
    assert_eq!(e.remaining, 10);
}

#[test]
fn remaining_never_increases_over_ticks() {
    let mut e = started(30, 0);
    let mut prev = e.remaining;
    let mut t = 0u64;
    for step in 0..100u64 {
        t += 137 + (step % 7) * 311;
        e.tick(t);
        assert!(e.remaining <= prev);
        prev = e.remaining;
    }
    assert_eq!(e.remaining, 0);
}

#[test]
fn expiry_fires_exactly_once() {
    let mut e = started(3, 0);
    let mut events = 0;
    for k in 1..50u64 {
        if e.tick(k * 1000).is_some() {
            events += 1;
        }
    }
    assert_eq!(events, 1);
    assert_eq!(e.remaining, 0);
    assert!(!e.running);
}

#[test]
fn overshoot_clamps_to_zero() {
    let mut e = started(5, 0);
    assert_eq!(e.tick(60_000), Some(ExpiredEvent));
    assert_eq!(e.remaining, 0);
}

#[test]
fn stopped_engine_ignores_ticks() {
    let mut e = started(10, 0);
    e.stop();
    assert!(!e.running);
    assert_eq!(e.last_tick, None);
    assert_eq!(e.tick(9000), None);
    assert_eq!(e.remaining, 10);
    e.stop();
    assert_eq!(e.remaining, 10);
}

#[test]
fn reset_returns_to_zero() {
    let mut e = started(3, 0);
    e.tick(5000);
    assert!(e.alarm_fired);
    e.reset();
    assert_eq!(e, CountdownEngine::new());
}

#[test]
fn restart_after_expiry_fires_again() {
    let mut e = started(1, 0);
    assert!(e.tick(1000).is_some());
    e.start(2, 10_000);
    assert!(!e.alarm_fired);
    assert_eq!(e.tick(11_000), None);
    assert_eq!(e.remaining, 1);
    assert!(e.tick(12_000).is_some());
}
