use floodgate::dynamic_mapping::DynamicMapping;
use floodgate::fixed_mapping::FixedMapping;
use floodgate::ConfigError;

const SECOND: u64 = 1_000_000_000;

#[test]
fn benchmark() {
    let mut mapping = FixedMapping::new(1, 2 * SECOND).unwrap();
    for _ in 0..100_000_00 {
        mapping.trigger(1234, 0);
    }
}

#[test]
fn keys_are_independent() {
    let mut mapping = FixedMapping::new(1, SECOND).unwrap();
    assert_eq!(mapping.trigger(1, 0), None);
    assert_eq!(mapping.trigger(2, 0), None);
    assert!(mapping.trigger(1, 1).is_some());
    assert!(mapping.trigger(2, 1).is_some());
    assert_eq!(mapping.trigger(3, 1), None);
}

#[test]
fn fixed_mapping_full_round() {
    let t0: u64 = 11;
    let mut mapping = FixedMapping::new(2, SECOND).unwrap();
    assert_eq!(mapping.tokens(9, t0), 2);
    assert!(mapping.can_trigger(9, t0));
    assert_eq!(mapping.retry_after(9, t0), None);
    assert_eq!(mapping.trigger(9, t0), None);
    assert_eq!(mapping.trigger(9, t0 + 1), None);
    let d = mapping.trigger(9, t0 + 2).expect("over capacity");
    assert_eq!(d, mapping.next_reset(9, t0 + 2));
    assert_eq!(mapping.retry_after(9, t0 + 2), Some(d));
    mapping.reset(9, t0 + 3);
    assert_eq!(mapping.tokens(9, t0 + 3), 2);
}

#[test]
fn fixed_sweep_evicts_only_stale() {
    let mut mapping = FixedMapping::new(1, 5 * SECOND).unwrap();
    mapping.trigger(1, 0);
    mapping.trigger(2, 4 * SECOND);
    assert_eq!(mapping.len(), 2);
    // key 1's window started at 0 and the period is 5 s: at 5 s + 1 it is
    // past retention, key 2 is not.
    mapping.sweep(5 * SECOND + 1);
    assert_eq!(mapping.len(), 1);
    mapping.sweep(20 * SECOND);
    assert_eq!(mapping.len(), 0);
}

#[test]
fn fixed_mapping_rejected_configurations() {
    assert_eq!(FixedMapping::new(0, SECOND).err(), Some(ConfigError::ZeroCapacity));
    assert_eq!(FixedMapping::new(3, 0).err(), Some(ConfigError::ZeroPeriod));
    assert_eq!(DynamicMapping::new(0).err(), Some(ConfigError::ZeroPeriod));
}

#[test]
fn dynamic_sweep_evicts_after_max_period() {
    // max_period 10 s; key "a" (hash 1) created with capacity 1, period 5 s;
    // after 11 s of inactivity a sweep evicts it, and recreation starts
    // fresh.
    let mut mapping = DynamicMapping::new(10 * SECOND).unwrap();
    assert_eq!(mapping.trigger(1, 1, 5 * SECOND, 0), None);
    assert_eq!(mapping.len(), 1);
    mapping.sweep(11 * SECOND);
    assert_eq!(mapping.len(), 0);
    assert_eq!(mapping.tokens(1, 1, 5 * SECOND, 11 * SECOND), 1);
}

#[test]
fn dynamic_sweep_keeps_recent() {
    let mut mapping = DynamicMapping::new(10 * SECOND).unwrap();
    mapping.trigger(1, 1, 5 * SECOND, 0);
    mapping.sweep(9 * SECOND);
    assert_eq!(mapping.len(), 1);
}

#[test]
fn dynamic_first_seen_parameters_win() {
    let mut mapping = DynamicMapping::new(100 * SECOND).unwrap();
    assert_eq!(mapping.trigger(7, 2, 100, 0), None);
    // a later call with a different pair still sees the stored counter:
    // one of two tokens is spent, not 98 of 99.
    assert_eq!(mapping.tokens(7, 99, 999, 1), 1);
    assert_eq!(mapping.next_reset(7, 99, 999, 40), 60);
}

#[test]
fn dynamic_full_round() {
    let mut mapping = DynamicMapping::new(10 * SECOND).unwrap();
    assert!(mapping.can_trigger(5, 1, SECOND, 0));
    assert_eq!(mapping.retry_after(5, 1, SECOND, 0), None);
    assert_eq!(mapping.trigger(5, 1, SECOND, 0), None);
    assert!(!mapping.can_trigger(5, 1, SECOND, 1));
    let d = mapping.retry_after(5, 1, SECOND, 1).expect("exhausted");
    assert_eq!(d, SECOND - 1);
    mapping.reset(5, 1, SECOND, 2);
    assert_eq!(mapping.tokens(5, 1, SECOND, 2), 1);
}

