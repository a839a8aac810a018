use floodgate::jumping_window::JumpingWindow;
use floodgate::traits::duration_parts;
use floodgate::traits::Delta;
use floodgate::traits::ToDuration;
use floodgate::ConfigError;

const SECOND: u64 = 1_000_000_000;

#[test]
fn three_triggers_then_wait() {
    // capacity 3, period 1 second: three admissions, then a denial whose
    // wait, once elapsed, admits again.
    let t0: u64 = 50;
    let mut w = JumpingWindow::new(3, SECOND, t0).unwrap();
    assert_eq!(w.trigger(t0), None);
    assert_eq!(w.trigger(t0 + 1), None);
    assert_eq!(w.trigger(t0 + 2), None);
    let d = w.trigger(t0 + 3).expect("fourth call must be denied");
    assert!(0 < d && d <= SECOND);
    assert_eq!(w.trigger(t0 + 3 + d), None);
}

#[test]
fn no_overshoot_within_window() {
    let t0: u64 = 0;
    let mut w = JumpingWindow::new(5, SECOND, t0).unwrap();
    let mut admitted: u64 = 0;
    let mut denied: u64 = 0;
    for i in 0..20u64 {
        if w.trigger(t0 + i * 1000).is_none() {
            admitted += 1;
        } else {
            denied += 1;
        }
    }
    assert_eq!(admitted, 5);
    assert_eq!(denied, 15);
}

#[test]
fn can_trigger_agrees_with_trigger() {
    let mut w = JumpingWindow::new(2, SECOND, 0).unwrap();
    assert!(w.can_trigger(10));
    assert_eq!(w.trigger(10), None);
    assert!(w.can_trigger(11));
    assert_eq!(w.trigger(11), None);
    assert!(!w.can_trigger(12));
    assert!(w.trigger(12).is_some());
}

#[test]
fn tokens_decrease_then_replenish() {
    let t0: u64 = 7;
    let mut w = JumpingWindow::new(2, SECOND, t0).unwrap();
    assert_eq!(w.tokens(t0), 2);
    w.trigger(t0);
    assert_eq!(w.tokens(t0 + 1), 1);
    w.trigger(t0 + 1);
    assert_eq!(w.tokens(t0 + 2), 0);
    let d = w.next_reset(t0 + 2);
    assert_eq!(w.tokens(t0 + 2 + d), 2);
}

#[test]
fn retry_after_none_iff_tokens_remain() {
    let mut w = JumpingWindow::new(1, SECOND, 0).unwrap();
    assert!(w.tokens(1) > 0);
    assert_eq!(w.retry_after(1), None);
    w.trigger(2);
    assert_eq!(w.tokens(3), 0);
    let d = w.retry_after(3).expect("no token left: a wait is owed");
    assert_eq!(d, w.next_reset(3));
}

#[test]
fn reset_restores_capacity() {
    let mut w = JumpingWindow::new(2, SECOND, 0).unwrap();
    w.trigger(1);
    w.trigger(2);
    assert!(w.trigger(3).is_some());
    w.reset(4);
    assert_eq!(w.tokens(4), 2);
    assert!(w.can_trigger(4));
}

#[test]
fn window_jumps_in_whole_periods() {
    // period 10 starting at 0: at time 37 the current window is [30, 40).
    let mut w = JumpingWindow::new(1, 10, 0).unwrap();
    w.trigger(5);
    assert_eq!(w.next_reset(37), 3);
    assert_eq!(w.tokens(37), 1);
}

#[test]
fn next_reset_exact() {
    let mut w = JumpingWindow::new(1, 100, 1000).unwrap();
    assert_eq!(w.next_reset(1030), 70);
    assert_eq!(w.next_reset(1000), 100);
}

#[test]
fn rejected_configurations() {
    assert_eq!(JumpingWindow::new(0, 5, 0).err(), Some(ConfigError::ZeroCapacity));
    assert_eq!(JumpingWindow::new(1, 0, 0).err(), Some(ConfigError::ZeroPeriod));
    assert_eq!(JumpingWindow::new(0, 0, 0).err(), Some(ConfigError::ZeroCapacity));
}

#[test]
fn delta_to_nanoseconds() {
    let d = Delta { days: 1, seconds: 2, microseconds: 3 };
    assert_eq!(d.as_duration(), 86_402_000_000_000 + 3_000);
    let zero = Delta { days: 0, seconds: 0, microseconds: 0 };
    assert_eq!(zero.as_duration(), 0);
}

#[test]
fn nanoseconds_to_parts() {
    assert_eq!(duration_parts(1_500_001_000), (1, 500_001));
    assert_eq!(duration_parts(999), (0, 0));
    assert_eq!(duration_parts(2 * SECOND), (2, 0));
}
