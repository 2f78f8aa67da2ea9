use bevy_javelin::util::{map_range, ConditionOnce, Counter, RetainedValue};

#[test]
fn condition_once_activates_once() {
    let mut c = ConditionOnce::new();
    assert!(!c.is_activated());
    assert_eq!(c.if_then(false, || 1), None);
    assert_eq!(c.if_then(true, || 2), Some(2));
    assert_eq!(c.if_then(true, || 3), None);
    assert!(c.is_activated());
}

#[test]
fn condition_once_set() {
    let mut c = ConditionOnce::new();
    assert!(!c.set(|| false));
    assert!(c.set(|| true));
    assert!(c.set(|| false));
}

#[test]
fn counter_counts() {
    let mut c = Counter(5);
    assert_eq!(c.next(), 5);
    assert_eq!(c.next(), 6);
    assert_eq!(c.0, 7);
}

#[test]
fn retained_value_keeps_last() {
    let mut v = RetainedValue(1);
    assert_eq!(v.get(None), 1);
    assert_eq!(v.get(Some(4)), 4);
    assert_eq!(v.get_with(|| None), 4);
    assert_eq!(v.get_with(|| Some(9)), 9);
    assert_eq!(v.current(), 9);
}

#[test]
fn map_range_values() {
    assert_eq!(map_range(5, 0..10, 0..100), 0);
    assert_eq!(map_range(10, 0..10, 0..100), 100);
    assert_eq!(map_range(20, 0..10, 5..15), 25);
    assert_eq!(map_range(-7, 0..2, 0..10), -30);
    assert_eq!(map_range(7, 0..-2, 0..10), -30);
}
