use rust_ffi_demo::counter::Counter;

#[test]
fn new_counter_holds_initial_value_only() {
    let c: Counter<u8> = Counter::new(-3);
    assert_eq!(c.value(), -3);
    assert!(c.label().is_none());
    assert!(c.callback().is_none());
}

#[test]
fn increment_adds_and_saturates() {
    let mut c: Counter<u8> = Counter::new(100);
    assert_eq!(c.increment(-30), None);
    assert_eq!(c.value(), 70);
    let mut top: Counter<u8> = Counter::new(i64::MAX);
    top.increment(1);
    assert_eq!(top.value(), i64::MAX);
    let mut bottom: Counter<u8> = Counter::new(i64::MIN);
    bottom.increment(-1);
    assert_eq!(bottom.value(), i64::MIN);
}

#[test]
fn reset_zeroes_and_notifies() {
    let mut c: Counter<u8> = Counter::new(999);
    assert_eq!(c.reset(), None);
    assert_eq!(c.value(), 0);
    c.set_callback(Some(5));
    c.increment(42);
    assert_eq!(c.reset(), Some(0));
}

#[test]
fn increment_notifies_with_the_new_value() {
    let mut c: Counter<u8> = Counter::new(0);
    c.set_callback(Some(1));
    assert_eq!(c.increment(4), Some(4));
    assert_eq!(c.increment(-10), Some(-6));
    c.set_callback(None);
    assert_eq!(c.increment(1), None);
}

#[test]
fn label_is_stored_and_cleared() {
    let mut c: Counter<u8> = Counter::new(0);
    c.set_label(Some(b"name".to_vec()));
    assert_eq!(c.label().map(|l| l.as_slice()), Some(b"name".as_slice()));
    c.set_label(None);
    assert!(c.label().is_none());
}

#[test]
fn snapshot_copies_value_and_label_but_not_the_callback() {
    let mut c: Counter<u8> = Counter::new(12);
    c.set_label(Some(b"tag".to_vec()));
    c.set_callback(Some(3));
    let copy = c.snapshot();
    assert_eq!(copy.value(), 12);
    assert_eq!(copy.label().map(|l| l.as_slice()), Some(b"tag".as_slice()));
    assert!(copy.callback().is_none());
    // The copy is independent of the original.
    c.increment(1);
    assert_eq!(copy.value(), 12);
}

#[test]
fn replacing_the_callback_drops_the_previous_one() {
    let mut c: Counter<u8> = Counter::new(0);
    c.set_callback(Some(1));
    c.set_callback(Some(2));
    assert_eq!(c.callback(), Some(&2));
    c.set_callback(None);
    assert!(c.callback().is_none());
}
